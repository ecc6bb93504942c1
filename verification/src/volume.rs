//! Storage volume operations, always relative to their storage pool.

use crate::address::AddressError;
use crate::address::valid_remote_name;
use crate::builder;
use crate::command::Action;
use crate::command::Binary;
use crate::command::BuildError;
use crate::command::CommandSpec;
use crate::command::CommandSpecV;
use crate::command::ParamName;
use crate::command::ParamSet;
use crate::command::ResourceKind;
use crate::registry;
use vstd::prelude::*;
use vstd::string::StringExecFns;

verus! {

/// List the volumes of a local storage pool:
/// `lxc storage volume list <storage>`.
pub fn get_volumes_by_storage(storage: &str) -> (r: Result<CommandSpec, BuildError>)
    ensures
        (storage@.len() > 0) ==> (r matches Ok(c) && c@.binary == Binary::Lxc && c@.argv =~= seq!["storage"@, "volume"@, "list"@, storage@]),
        (storage@.len() == 0) ==> r == Err::<CommandSpec, BuildError>(BuildError::InvalidAddress(AddressError::EmptyResource)),
{
    let mut p = ParamSet::empty();
    p.pool = Some(String::from_str(storage));
    let ghost gp = p;
    let r = builder::build(ResourceKind::Volume, Action::List, p);
    proof {
        reveal_with_fuel(builder::first_missing, 10);
        reveal_with_fuel(builder::first_empty, 10);
        let toks = registry::spec_entry(ResourceKind::Volume, Action::List)->0;
        assert(builder::requires_param(toks, ParamName::Pool)) by {
            assert(builder::token_requires(toks[3], ParamName::Pool));
        }
        if storage@.len() > 0 {
            assert(builder::spec_argv(toks, gp) =~= seq!["storage"@, "volume"@, "list"@, storage@]);
            assert(builder::spec_build(ResourceKind::Volume, Action::List, gp) matches Ok(c) && c.binary == Binary::Lxc && c.argv == builder::spec_argv(toks, gp));
        }
        if storage@.len() == 0 {
            assert(builder::spec_build(ResourceKind::Volume, Action::List, gp) == Err::<CommandSpecV, BuildError>(BuildError::InvalidAddress(AddressError::EmptyResource)));
        }
    }
    r
}

/// List the volumes of a remote storage pool:
/// `lxc storage volume list <remote>:<storage>`.
pub fn get_volumes_by_remote_storage(remote: &str, storage: &str) -> (r: Result<CommandSpec, BuildError>)
    ensures
        (valid_remote_name(remote@) && storage@.len() > 0) ==> (r matches Ok(c) && c@.binary == Binary::Lxc && c@.argv =~= seq!["storage"@, "volume"@, "list"@, remote@ + ":"@ + storage@]),
        (!valid_remote_name(remote@)) ==> r == Err::<CommandSpec, BuildError>(BuildError::InvalidAddress(AddressError::InvalidRemoteName)),
        (valid_remote_name(remote@) && storage@.len() == 0) ==> r == Err::<CommandSpec, BuildError>(BuildError::InvalidAddress(AddressError::EmptyResource)),
{
    let mut p = ParamSet::empty();
    p.pool = Some(String::from_str(storage));
    p.remote = Some(String::from_str(remote));
    let ghost gp = p;
    let r = builder::build(ResourceKind::Volume, Action::List, p);
    proof {
        reveal_with_fuel(builder::first_missing, 10);
        reveal_with_fuel(builder::first_empty, 10);
        let toks = registry::spec_entry(ResourceKind::Volume, Action::List)->0;
        assert(builder::requires_param(toks, ParamName::Pool)) by {
            assert(builder::token_requires(toks[3], ParamName::Pool));
        }
        assert(builder::uses_src_scope(toks)) by {
            assert(builder::token_uses_src(toks[3]));
        }
        if valid_remote_name(remote@) && storage@.len() > 0 {
            assert(builder::spec_argv(toks, gp) =~= seq!["storage"@, "volume"@, "list"@, remote@ + ":"@ + storage@]);
            assert(builder::spec_build(ResourceKind::Volume, Action::List, gp) matches Ok(c) && c.binary == Binary::Lxc && c.argv == builder::spec_argv(toks, gp));
        }
        if !valid_remote_name(remote@) {
            assert(builder::spec_build(ResourceKind::Volume, Action::List, gp) == Err::<CommandSpecV, BuildError>(BuildError::InvalidAddress(AddressError::InvalidRemoteName)));
        }
        if valid_remote_name(remote@) && storage@.len() == 0 {
            assert(builder::spec_build(ResourceKind::Volume, Action::List, gp) == Err::<CommandSpecV, BuildError>(BuildError::InvalidAddress(AddressError::EmptyResource)));
        }
    }
    r
}

/// Create a volume in a local storage pool:
/// `lxc storage volume create <storage> <name>`.
pub fn create_local_volume(storage: &str, name: &str) -> (r: Result<CommandSpec, BuildError>)
    ensures
        (storage@.len() > 0) ==> (r matches Ok(c) && c@.binary == Binary::Lxc && c@.argv =~= seq!["storage"@, "volume"@, "create"@, storage@, name@]),
        (storage@.len() == 0) ==> r == Err::<CommandSpec, BuildError>(BuildError::InvalidAddress(AddressError::EmptyResource)),
{
    let mut p = ParamSet::empty();
    p.pool = Some(String::from_str(storage));
    p.name = Some(String::from_str(name));
    let ghost gp = p;
    let r = builder::build(ResourceKind::Volume, Action::Create, p);
    proof {
        reveal_with_fuel(builder::first_missing, 10);
        reveal_with_fuel(builder::first_empty, 10);
        let toks = registry::spec_entry(ResourceKind::Volume, Action::Create)->0;
        assert(builder::requires_param(toks, ParamName::Pool)) by {
            assert(builder::token_requires(toks[3], ParamName::Pool));
        }
        assert(builder::requires_param(toks, ParamName::Name)) by {
            assert(builder::token_requires(toks[4], ParamName::Name));
        }
        if storage@.len() > 0 {
            assert(builder::spec_argv(toks, gp) =~= seq!["storage"@, "volume"@, "create"@, storage@, name@]);
            assert(builder::spec_build(ResourceKind::Volume, Action::Create, gp) matches Ok(c) && c.binary == Binary::Lxc && c.argv == builder::spec_argv(toks, gp));
        }
        if storage@.len() == 0 {
            assert(builder::spec_build(ResourceKind::Volume, Action::Create, gp) == Err::<CommandSpecV, BuildError>(BuildError::InvalidAddress(AddressError::EmptyResource)));
        }
    }
    r
}

/// Create a volume in a remote storage pool:
/// `lxc storage volume create <remote>:<storage> <name>`.
pub fn create_remote_volume(remote: &str, storage: &str, name: &str) -> (r: Result<CommandSpec, BuildError>)
    ensures
        (valid_remote_name(remote@) && storage@.len() > 0) ==> (r matches Ok(c) && c@.binary == Binary::Lxc && c@.argv =~= seq!["storage"@, "volume"@, "create"@, remote@ + ":"@ + storage@, name@]),
        (!valid_remote_name(remote@)) ==> r == Err::<CommandSpec, BuildError>(BuildError::InvalidAddress(AddressError::InvalidRemoteName)),
        (valid_remote_name(remote@) && storage@.len() == 0) ==> r == Err::<CommandSpec, BuildError>(BuildError::InvalidAddress(AddressError::EmptyResource)),
{
    let mut p = ParamSet::empty();
    p.pool = Some(String::from_str(storage));
    p.name = Some(String::from_str(name));
    p.remote = Some(String::from_str(remote));
    let ghost gp = p;
    let r = builder::build(ResourceKind::Volume, Action::Create, p);
    proof {
        reveal_with_fuel(builder::first_missing, 10);
        reveal_with_fuel(builder::first_empty, 10);
        let toks = registry::spec_entry(ResourceKind::Volume, Action::Create)->0;
        assert(builder::requires_param(toks, ParamName::Pool)) by {
            assert(builder::token_requires(toks[3], ParamName::Pool));
        }
        assert(builder::requires_param(toks, ParamName::Name)) by {
            assert(builder::token_requires(toks[4], ParamName::Name));
        }
        assert(builder::uses_src_scope(toks)) by {
            assert(builder::token_uses_src(toks[3]));
        }
        if valid_remote_name(remote@) && storage@.len() > 0 {
            assert(builder::spec_argv(toks, gp) =~= seq!["storage"@, "volume"@, "create"@, remote@ + ":"@ + storage@, name@]);
            assert(builder::spec_build(ResourceKind::Volume, Action::Create, gp) matches Ok(c) && c.binary == Binary::Lxc && c.argv == builder::spec_argv(toks, gp));
        }
        if !valid_remote_name(remote@) {
            assert(builder::spec_build(ResourceKind::Volume, Action::Create, gp) == Err::<CommandSpecV, BuildError>(BuildError::InvalidAddress(AddressError::InvalidRemoteName)));
        }
        if valid_remote_name(remote@) && storage@.len() == 0 {
            assert(builder::spec_build(ResourceKind::Volume, Action::Create, gp) == Err::<CommandSpecV, BuildError>(BuildError::InvalidAddress(AddressError::EmptyResource)));
        }
    }
    r
}

/// Attach a volume to a container as its `data` device:
/// `lxc storage volume attach <storage> <volume> <container> data <path>`.
pub fn attach_volume_lxc(storage: &str, volume: &str, container: &str, path: &str) -> (r: Result<CommandSpec, BuildError>)
    ensures
        (r matches Ok(c) && c@.binary == Binary::Lxc && c@.argv =~= seq!["storage"@, "volume"@, "attach"@, storage@, volume@, container@, "data"@, path@]),
{
    let mut p = ParamSet::empty();
    p.pool = Some(String::from_str(storage));
    p.name = Some(String::from_str(volume));
    p.container = Some(String::from_str(container));
    p.path = Some(String::from_str(path));
    let ghost gp = p;
    let r = builder::build(ResourceKind::Volume, Action::Attach, p);
    proof {
        reveal_with_fuel(builder::first_missing, 10);
        reveal_with_fuel(builder::first_empty, 10);
        let toks = registry::spec_entry(ResourceKind::Volume, Action::Attach)->0;
        assert(builder::requires_param(toks, ParamName::Pool)) by {
            assert(builder::token_requires(toks[3], ParamName::Pool));
        }
        assert(builder::requires_param(toks, ParamName::Name)) by {
            assert(builder::token_requires(toks[4], ParamName::Name));
        }
        assert(builder::requires_param(toks, ParamName::Container)) by {
            assert(builder::token_requires(toks[5], ParamName::Container));
        }
        assert(builder::requires_param(toks, ParamName::Path)) by {
            assert(builder::token_requires(toks[7], ParamName::Path));
        }
        assert(builder::spec_argv(toks, gp) =~= seq!["storage"@, "volume"@, "attach"@, storage@, volume@, container@, "data"@, path@]);
        assert(builder::spec_build(ResourceKind::Volume, Action::Attach, gp) matches Ok(c) && c.binary == Binary::Lxc && c.argv == builder::spec_argv(toks, gp));
    }
    r
}

/// Detach a volume from a container:
/// `lxc storage volume detach <storage> <volume> <container>`.
pub fn detach_volume_lxc(storage: &str, volume: &str, container: &str) -> (r: Result<CommandSpec, BuildError>)
    ensures
        (r matches Ok(c) && c@.binary == Binary::Lxc && c@.argv =~= seq!["storage"@, "volume"@, "detach"@, storage@, volume@, container@]),
{
    let mut p = ParamSet::empty();
    p.pool = Some(String::from_str(storage));
    p.name = Some(String::from_str(volume));
    p.container = Some(String::from_str(container));
    let ghost gp = p;
    let r = builder::build(ResourceKind::Volume, Action::Detach, p);
    proof {
        reveal_with_fuel(builder::first_missing, 10);
        reveal_with_fuel(builder::first_empty, 10);
        let toks = registry::spec_entry(ResourceKind::Volume, Action::Detach)->0;
        assert(builder::requires_param(toks, ParamName::Pool)) by {
            assert(builder::token_requires(toks[3], ParamName::Pool));
        }
        assert(builder::requires_param(toks, ParamName::Name)) by {
            assert(builder::token_requires(toks[4], ParamName::Name));
        }
        assert(builder::requires_param(toks, ParamName::Container)) by {
            assert(builder::token_requires(toks[5], ParamName::Container));
        }
        assert(builder::spec_argv(toks, gp) =~= seq!["storage"@, "volume"@, "detach"@, storage@, volume@, container@]);
        assert(builder::spec_build(ResourceKind::Volume, Action::Detach, gp) matches Ok(c) && c.binary == Binary::Lxc && c.argv == builder::spec_argv(toks, gp));
    }
    r
}

/// Delete a volume of a local storage pool:
/// `lxc storage volume delete local:<storage> local:<volume>`.
pub fn del_local_volume(storage: &str, volume: &str) -> (r: Result<CommandSpec, BuildError>)
    ensures
        (storage@.len() > 0 && volume@.len() > 0) ==> (r matches Ok(c) && c@.binary == Binary::Lxc && c@.argv =~= seq!["storage"@, "volume"@, "delete"@, "local:"@ + storage@, "local:"@ + volume@]),
        ((storage@.len() == 0 || volume@.len() == 0)) ==> r == Err::<CommandSpec, BuildError>(BuildError::InvalidAddress(AddressError::EmptyResource)),
{
    let mut p = ParamSet::empty();
    p.pool = Some(String::from_str(storage));
    p.name = Some(String::from_str(volume));
    let ghost gp = p;
    let r = builder::build(ResourceKind::Volume, Action::Delete, p);
    proof {
        reveal_with_fuel(builder::first_missing, 10);
        reveal_with_fuel(builder::first_empty, 10);
        let toks = registry::spec_entry(ResourceKind::Volume, Action::Delete)->0;
        assert(builder::requires_param(toks, ParamName::Pool)) by {
            assert(builder::token_requires(toks[3], ParamName::Pool));
        }
        assert(builder::requires_param(toks, ParamName::Name)) by {
            assert(builder::token_requires(toks[4], ParamName::Name));
        }
        if storage@.len() > 0 && volume@.len() > 0 {
            assert(builder::spec_argv(toks, gp) =~= seq!["storage"@, "volume"@, "delete"@, "local:"@ + storage@, "local:"@ + volume@]);
            assert(builder::spec_build(ResourceKind::Volume, Action::Delete, gp) matches Ok(c) && c.binary == Binary::Lxc && c.argv == builder::spec_argv(toks, gp));
        }
        if (storage@.len() == 0 || volume@.len() == 0) {
            assert(builder::spec_build(ResourceKind::Volume, Action::Delete, gp) == Err::<CommandSpecV, BuildError>(BuildError::InvalidAddress(AddressError::EmptyResource)));
        }
    }
    r
}

/// Delete a volume of a remote storage pool:
/// `lxc storage volume delete <remote>:<storage> <remote>:<volume>`.
pub fn del_remote_volume(remote: &str, storage: &str, volume: &str) -> (r: Result<CommandSpec, BuildError>)
    ensures
        (valid_remote_name(remote@) && storage@.len() > 0 && volume@.len() > 0) ==> (r matches Ok(c) && c@.binary == Binary::Lxc && c@.argv =~= seq!["storage"@, "volume"@, "delete"@, remote@ + ":"@ + storage@, remote@ + ":"@ + volume@]),
        (!valid_remote_name(remote@)) ==> r == Err::<CommandSpec, BuildError>(BuildError::InvalidAddress(AddressError::InvalidRemoteName)),
        (valid_remote_name(remote@) && (storage@.len() == 0 || volume@.len() == 0)) ==> r == Err::<CommandSpec, BuildError>(BuildError::InvalidAddress(AddressError::EmptyResource)),
{
    let mut p = ParamSet::empty();
    p.pool = Some(String::from_str(storage));
    p.name = Some(String::from_str(volume));
    p.remote = Some(String::from_str(remote));
    let ghost gp = p;
    let r = builder::build(ResourceKind::Volume, Action::Delete, p);
    proof {
        reveal_with_fuel(builder::first_missing, 10);
        reveal_with_fuel(builder::first_empty, 10);
        let toks = registry::spec_entry(ResourceKind::Volume, Action::Delete)->0;
        assert(builder::requires_param(toks, ParamName::Pool)) by {
            assert(builder::token_requires(toks[3], ParamName::Pool));
        }
        assert(builder::requires_param(toks, ParamName::Name)) by {
            assert(builder::token_requires(toks[4], ParamName::Name));
        }
        assert(builder::uses_src_scope(toks)) by {
            assert(builder::token_uses_src(toks[3]));
        }
        if valid_remote_name(remote@) && storage@.len() > 0 && volume@.len() > 0 {
            assert(builder::spec_argv(toks, gp) =~= seq!["storage"@, "volume"@, "delete"@, remote@ + ":"@ + storage@, remote@ + ":"@ + volume@]);
            assert(builder::spec_build(ResourceKind::Volume, Action::Delete, gp) matches Ok(c) && c.binary == Binary::Lxc && c.argv == builder::spec_argv(toks, gp));
        }
        if !valid_remote_name(remote@) {
            assert(builder::spec_build(ResourceKind::Volume, Action::Delete, gp) == Err::<CommandSpecV, BuildError>(BuildError::InvalidAddress(AddressError::InvalidRemoteName)));
        }
        if valid_remote_name(remote@) && (storage@.len() == 0 || volume@.len() == 0) {
            assert(builder::spec_build(ResourceKind::Volume, Action::Delete, gp) == Err::<CommandSpecV, BuildError>(BuildError::InvalidAddress(AddressError::EmptyResource)));
        }
    }
    r
}

/// Rename a volume of a local storage pool:
/// `lxc storage volume rename <storage> <old> <new>`.
pub fn rename_local_volume_lxc(storage: &str, old_name: &str, new_name: &str) -> (r: Result<CommandSpec, BuildError>)
    ensures
        (storage@.len() > 0 && old_name@.len() > 0 && new_name@.len() > 0) ==> (r matches Ok(c) && c@.binary == Binary::Lxc && c@.argv =~= seq!["storage"@, "volume"@, "rename"@, storage@, old_name@, new_name@]),
        ((storage@.len() == 0 || old_name@.len() == 0 || new_name@.len() == 0)) ==> r == Err::<CommandSpec, BuildError>(BuildError::InvalidAddress(AddressError::EmptyResource)),
{
    let mut p = ParamSet::empty();
    p.pool = Some(String::from_str(storage));
    p.name = Some(String::from_str(old_name));
    p.new_name = Some(String::from_str(new_name));
    let ghost gp = p;
    let r = builder::build(ResourceKind::Volume, Action::Rename, p);
    proof {
        reveal_with_fuel(builder::first_missing, 10);
        reveal_with_fuel(builder::first_empty, 10);
        let toks = registry::spec_entry(ResourceKind::Volume, Action::Rename)->0;
        assert(builder::requires_param(toks, ParamName::Pool)) by {
            assert(builder::token_requires(toks[3], ParamName::Pool));
        }
        assert(builder::requires_param(toks, ParamName::Name)) by {
            assert(builder::token_requires(toks[4], ParamName::Name));
        }
        assert(builder::requires_param(toks, ParamName::NewName)) by {
            assert(builder::token_requires(toks[5], ParamName::NewName));
        }
        if storage@.len() > 0 && old_name@.len() > 0 && new_name@.len() > 0 {
            assert(builder::spec_argv(toks, gp) =~= seq!["storage"@, "volume"@, "rename"@, storage@, old_name@, new_name@]);
            assert(builder::spec_build(ResourceKind::Volume, Action::Rename, gp) matches Ok(c) && c.binary == Binary::Lxc && c.argv == builder::spec_argv(toks, gp));
        }
        if (storage@.len() == 0 || old_name@.len() == 0 || new_name@.len() == 0) {
            assert(builder::spec_build(ResourceKind::Volume, Action::Rename, gp) == Err::<CommandSpecV, BuildError>(BuildError::InvalidAddress(AddressError::EmptyResource)));
        }
    }
    r
}

/// Rename a volume of a remote storage pool:
/// `lxc storage volume rename <remote>:<storage> <remote>:<old> <remote>:<new>`.
pub fn rename_remote_volume_lxc(remote: &str, storage: &str, old_name: &str, new_name: &str) -> (r: Result<CommandSpec, BuildError>)
    ensures
        (valid_remote_name(remote@) && storage@.len() > 0 && old_name@.len() > 0 && new_name@.len() > 0) ==> (r matches Ok(c) && c@.binary == Binary::Lxc && c@.argv =~= seq!["storage"@, "volume"@, "rename"@, remote@ + ":"@ + storage@, remote@ + ":"@ + old_name@, remote@ + ":"@ + new_name@]),
        (!valid_remote_name(remote@)) ==> r == Err::<CommandSpec, BuildError>(BuildError::InvalidAddress(AddressError::InvalidRemoteName)),
        (valid_remote_name(remote@) && (storage@.len() == 0 || old_name@.len() == 0 || new_name@.len() == 0)) ==> r == Err::<CommandSpec, BuildError>(BuildError::InvalidAddress(AddressError::EmptyResource)),
{
    let mut p = ParamSet::empty();
    p.pool = Some(String::from_str(storage));
    p.name = Some(String::from_str(old_name));
    p.new_name = Some(String::from_str(new_name));
    p.remote = Some(String::from_str(remote));
    let ghost gp = p;
    let r = builder::build(ResourceKind::Volume, Action::Rename, p);
    proof {
        reveal_with_fuel(builder::first_missing, 10);
        reveal_with_fuel(builder::first_empty, 10);
        let toks = registry::spec_entry(ResourceKind::Volume, Action::Rename)->0;
        assert(builder::requires_param(toks, ParamName::Pool)) by {
            assert(builder::token_requires(toks[3], ParamName::Pool));
        }
        assert(builder::requires_param(toks, ParamName::Name)) by {
            assert(builder::token_requires(toks[4], ParamName::Name));
        }
        assert(builder::requires_param(toks, ParamName::NewName)) by {
            assert(builder::token_requires(toks[5], ParamName::NewName));
        }
        assert(builder::uses_src_scope(toks)) by {
            assert(builder::token_uses_src(toks[3]));
        }
        if valid_remote_name(remote@) && storage@.len() > 0 && old_name@.len() > 0 && new_name@.len() > 0 {
            assert(builder::spec_argv(toks, gp) =~= seq!["storage"@, "volume"@, "rename"@, remote@ + ":"@ + storage@, remote@ + ":"@ + old_name@, remote@ + ":"@ + new_name@]);
            assert(builder::spec_build(ResourceKind::Volume, Action::Rename, gp) matches Ok(c) && c.binary == Binary::Lxc && c.argv == builder::spec_argv(toks, gp));
        }
        if !valid_remote_name(remote@) {
            assert(builder::spec_build(ResourceKind::Volume, Action::Rename, gp) == Err::<CommandSpecV, BuildError>(BuildError::InvalidAddress(AddressError::InvalidRemoteName)));
        }
        if valid_remote_name(remote@) && (storage@.len() == 0 || old_name@.len() == 0 || new_name@.len() == 0) {
            assert(builder::spec_build(ResourceKind::Volume, Action::Rename, gp) == Err::<CommandSpecV, BuildError>(BuildError::InvalidAddress(AddressError::EmptyResource)));
        }
    }
    r
}

/// Attach a volume to a profile:
/// `lxc storage volume attach-profile <storage> <volume> <profile>`.
pub fn attach_profile_volume_lxc(storage: &str, volume: &str, profile: &str) -> (r: CommandSpec)
    ensures
        r@.binary == Binary::Lxc,
        r@.argv =~= seq!["storage"@, "volume"@, "attach-profile"@, storage@, volume@, profile@],
{
    let mut argv: Vec<String> = Vec::new();
    argv.push(String::from_str("storage"));
    argv.push(String::from_str("volume"));
    argv.push(String::from_str("attach-profile"));
    argv.push(String::from_str(storage));
    argv.push(String::from_str(volume));
    argv.push(String::from_str(profile));
    proof {
        assert(argv.deep_view() =~= seq!["storage"@, "volume"@, "attach-profile"@, storage@, volume@, profile@]);
    }
    CommandSpec { binary: Binary::Lxc, argv }
}

/// Detach a volume from a profile:
/// `lxc storage volume detach-profile <storage> <volume> <profile>`.
pub fn detach_profile_volume_lxc(storage: &str, volume: &str, profile: &str) -> (r: CommandSpec)
    ensures
        r@.binary == Binary::Lxc,
        r@.argv =~= seq!["storage"@, "volume"@, "detach-profile"@, storage@, volume@, profile@],
{
    let mut argv: Vec<String> = Vec::new();
    argv.push(String::from_str("storage"));
    argv.push(String::from_str("volume"));
    argv.push(String::from_str("detach-profile"));
    argv.push(String::from_str(storage));
    argv.push(String::from_str(volume));
    argv.push(String::from_str(profile));
    proof {
        assert(argv.deep_view() =~= seq!["storage"@, "volume"@, "detach-profile"@, storage@, volume@, profile@]);
    }
    CommandSpec { binary: Binary::Lxc, argv }
}

} // verus!
