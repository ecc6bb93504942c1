//! Container lifecycle operations: listing, launching, state changes,
//! copying and configuration, plus file transfer into and out of a
//! container.

use crate::address::AddressError;
use crate::address::valid_remote_name;
use crate::builder;
use crate::command::Action;
use crate::command::Binary;
use crate::command::BuildError;
use crate::command::CommandSpec;
use crate::command::CommandSpecV;
use crate::command::ParamName;
use crate::command::ParamSet;
use crate::command::ResourceKind;
use crate::registry;
use vstd::prelude::*;
use vstd::string::StringExecFns;

verus! {

/// List the local containers: `lxc list local:`.
pub fn get_local_lxc() -> (r: Result<CommandSpec, BuildError>)
    ensures
        (r matches Ok(c) && c@.binary == Binary::Lxc && c@.argv =~= seq!["list"@, "local:"@]),
{
    let p = ParamSet::empty();
    let ghost gp = p;
    let r = builder::build(ResourceKind::Container, Action::List, p);
    proof {
        reveal_with_fuel(builder::first_missing, 10);
        reveal_with_fuel(builder::first_empty, 10);
        let toks = registry::spec_entry(ResourceKind::Container, Action::List)->0;
        assert(builder::spec_argv(toks, gp) =~= seq!["list"@, "local:"@]);
        assert(builder::spec_build(ResourceKind::Container, Action::List, gp) matches Ok(c) && c.binary == Binary::Lxc && c.argv == builder::spec_argv(toks, gp));
    }
    r
}

/// List the containers of a named remote: `lxc list <remote>:`.
pub fn get_remote_lxc(remote: &str) -> (r: Result<CommandSpec, BuildError>)
    ensures
        (valid_remote_name(remote@)) ==> (r matches Ok(c) && c@.binary == Binary::Lxc && c@.argv =~= seq!["list"@, remote@ + ":"@]),
        (!valid_remote_name(remote@)) ==> r == Err::<CommandSpec, BuildError>(BuildError::InvalidAddress(AddressError::InvalidRemoteName)),
{
    let mut p = ParamSet::empty();
    p.remote = Some(String::from_str(remote));
    let ghost gp = p;
    let r = builder::build(ResourceKind::Container, Action::List, p);
    proof {
        reveal_with_fuel(builder::first_missing, 10);
        reveal_with_fuel(builder::first_empty, 10);
        let toks = registry::spec_entry(ResourceKind::Container, Action::List)->0;
        assert(builder::uses_src_scope(toks)) by {
            assert(builder::token_uses_src(toks[1]));
        }
        if valid_remote_name(remote@) {
            assert(builder::spec_argv(toks, gp) =~= seq!["list"@, remote@ + ":"@]);
            assert(builder::spec_build(ResourceKind::Container, Action::List, gp) matches Ok(c) && c.binary == Binary::Lxc && c.argv == builder::spec_argv(toks, gp));
        }
        if !valid_remote_name(remote@) {
            assert(builder::spec_build(ResourceKind::Container, Action::List, gp) == Err::<CommandSpecV, BuildError>(BuildError::InvalidAddress(AddressError::InvalidRemoteName)));
        }
    }
    r
}

/// Launch a local container from a registry image:
/// `lxc launch images:<image> <container>`.
pub fn launch_local_lxc(image: &str, container: &str) -> (r: Result<CommandSpec, BuildError>)
    ensures
        (image@.len() > 0 && container@.len() > 0) ==> (r matches Ok(c) && c@.binary == Binary::Lxc && c@.argv =~= seq!["launch"@, "images:"@ + image@, container@]),
        ((image@.len() == 0 || container@.len() == 0)) ==> r == Err::<CommandSpec, BuildError>(BuildError::InvalidAddress(AddressError::EmptyResource)),
{
    let mut p = ParamSet::empty();
    p.image = Some(String::from_str(image));
    p.name = Some(String::from_str(container));
    let ghost gp = p;
    let r = builder::build(ResourceKind::Container, Action::Launch, p);
    proof {
        reveal_with_fuel(builder::first_missing, 10);
        reveal_with_fuel(builder::first_empty, 10);
        let toks = registry::spec_entry(ResourceKind::Container, Action::Launch)->0;
        assert(builder::requires_param(toks, ParamName::Image)) by {
            assert(builder::token_requires(toks[1], ParamName::Image));
        }
        assert(builder::requires_param(toks, ParamName::Name)) by {
            assert(builder::token_requires(toks[2], ParamName::Name));
        }
        if image@.len() > 0 && container@.len() > 0 {
            assert(builder::spec_argv(toks, gp) =~= seq!["launch"@, "images:"@ + image@, container@]);
            assert(builder::spec_build(ResourceKind::Container, Action::Launch, gp) matches Ok(c) && c.binary == Binary::Lxc && c.argv == builder::spec_argv(toks, gp));
        }
        if (image@.len() == 0 || container@.len() == 0) {
            assert(builder::spec_build(ResourceKind::Container, Action::Launch, gp) == Err::<CommandSpecV, BuildError>(BuildError::InvalidAddress(AddressError::EmptyResource)));
        }
    }
    r
}

/// Launch a container on a named remote from that remote's image:
/// `lxc launch <remote>:<image> <remote>:<container>`.
pub fn launch_remote_lxc(remote: &str, image: &str, container: &str) -> (r: Result<CommandSpec, BuildError>)
    ensures
        (valid_remote_name(remote@) && image@.len() > 0 && container@.len() > 0) ==> (r matches Ok(c) && c@.binary == Binary::Lxc && c@.argv =~= seq!["launch"@, remote@ + ":"@ + image@, remote@ + ":"@ + container@]),
        (!valid_remote_name(remote@)) ==> r == Err::<CommandSpec, BuildError>(BuildError::InvalidAddress(AddressError::InvalidRemoteName)),
        (valid_remote_name(remote@) && (image@.len() == 0 || container@.len() == 0)) ==> r == Err::<CommandSpec, BuildError>(BuildError::InvalidAddress(AddressError::EmptyResource)),
{
    let mut p = ParamSet::empty();
    p.image = Some(String::from_str(image));
    p.name = Some(String::from_str(container));
    p.remote = Some(String::from_str(remote));
    let ghost gp = p;
    let r = builder::build(ResourceKind::Container, Action::Launch, p);
    proof {
        reveal_with_fuel(builder::first_missing, 10);
        reveal_with_fuel(builder::first_empty, 10);
        let toks = registry::spec_entry(ResourceKind::Container, Action::Launch)->0;
        assert(builder::requires_param(toks, ParamName::Image)) by {
            assert(builder::token_requires(toks[1], ParamName::Image));
        }
        assert(builder::requires_param(toks, ParamName::Name)) by {
            assert(builder::token_requires(toks[2], ParamName::Name));
        }
        assert(builder::uses_src_scope(toks)) by {
            assert(builder::token_uses_src(toks[1]));
        }
        if valid_remote_name(remote@) && image@.len() > 0 && container@.len() > 0 {
            assert(builder::spec_argv(toks, gp) =~= seq!["launch"@, remote@ + ":"@ + image@, remote@ + ":"@ + container@]);
            assert(builder::spec_build(ResourceKind::Container, Action::Launch, gp) matches Ok(c) && c.binary == Binary::Lxc && c.argv == builder::spec_argv(toks, gp));
        }
        if !valid_remote_name(remote@) {
            assert(builder::spec_build(ResourceKind::Container, Action::Launch, gp) == Err::<CommandSpecV, BuildError>(BuildError::InvalidAddress(AddressError::InvalidRemoteName)));
        }
        if valid_remote_name(remote@) && (image@.len() == 0 || container@.len() == 0) {
            assert(builder::spec_build(ResourceKind::Container, Action::Launch, gp) == Err::<CommandSpecV, BuildError>(BuildError::InvalidAddress(AddressError::EmptyResource)));
        }
    }
    r
}

/// Show information about a local container: `lxc info local:<container>`.
pub fn get_local_lxc_info(container: &str) -> (r: Result<CommandSpec, BuildError>)
    ensures
        (container@.len() > 0) ==> (r matches Ok(c) && c@.binary == Binary::Lxc && c@.argv =~= seq!["info"@, "local:"@ + container@]),
        (container@.len() == 0) ==> r == Err::<CommandSpec, BuildError>(BuildError::InvalidAddress(AddressError::EmptyResource)),
{
    let mut p = ParamSet::empty();
    p.name = Some(String::from_str(container));
    let ghost gp = p;
    let r = builder::build(ResourceKind::Container, Action::Info, p);
    proof {
        reveal_with_fuel(builder::first_missing, 10);
        reveal_with_fuel(builder::first_empty, 10);
        let toks = registry::spec_entry(ResourceKind::Container, Action::Info)->0;
        assert(builder::requires_param(toks, ParamName::Name)) by {
            assert(builder::token_requires(toks[1], ParamName::Name));
        }
        if container@.len() > 0 {
            assert(builder::spec_argv(toks, gp) =~= seq!["info"@, "local:"@ + container@]);
            assert(builder::spec_build(ResourceKind::Container, Action::Info, gp) matches Ok(c) && c.binary == Binary::Lxc && c.argv == builder::spec_argv(toks, gp));
        }
        if container@.len() == 0 {
            assert(builder::spec_build(ResourceKind::Container, Action::Info, gp) == Err::<CommandSpecV, BuildError>(BuildError::InvalidAddress(AddressError::EmptyResource)));
        }
    }
    r
}

/// Show information about a remote container:
/// `lxc info <remote>:<container>`.
pub fn get_remote_lxc_info(remote: &str, container: &str) -> (r: Result<CommandSpec, BuildError>)
    ensures
        (valid_remote_name(remote@) && container@.len() > 0) ==> (r matches Ok(c) && c@.binary == Binary::Lxc && c@.argv =~= seq!["info"@, remote@ + ":"@ + container@]),
        (!valid_remote_name(remote@)) ==> r == Err::<CommandSpec, BuildError>(BuildError::InvalidAddress(AddressError::InvalidRemoteName)),
        (valid_remote_name(remote@) && container@.len() == 0) ==> r == Err::<CommandSpec, BuildError>(BuildError::InvalidAddress(AddressError::EmptyResource)),
{
    let mut p = ParamSet::empty();
    p.name = Some(String::from_str(container));
    p.remote = Some(String::from_str(remote));
    let ghost gp = p;
    let r = builder::build(ResourceKind::Container, Action::Info, p);
    proof {
        reveal_with_fuel(builder::first_missing, 10);
        reveal_with_fuel(builder::first_empty, 10);
        let toks = registry::spec_entry(ResourceKind::Container, Action::Info)->0;
        assert(builder::requires_param(toks, ParamName::Name)) by {
            assert(builder::token_requires(toks[1], ParamName::Name));
        }
        assert(builder::uses_src_scope(toks)) by {
            assert(builder::token_uses_src(toks[1]));
        }
        if valid_remote_name(remote@) && container@.len() > 0 {
            assert(builder::spec_argv(toks, gp) =~= seq!["info"@, remote@ + ":"@ + container@]);
            assert(builder::spec_build(ResourceKind::Container, Action::Info, gp) matches Ok(c) && c.binary == Binary::Lxc && c.argv == builder::spec_argv(toks, gp));
        }
        if !valid_remote_name(remote@) {
            assert(builder::spec_build(ResourceKind::Container, Action::Info, gp) == Err::<CommandSpecV, BuildError>(BuildError::InvalidAddress(AddressError::InvalidRemoteName)));
        }
        if valid_remote_name(remote@) && container@.len() == 0 {
            assert(builder::spec_build(ResourceKind::Container, Action::Info, gp) == Err::<CommandSpecV, BuildError>(BuildError::InvalidAddress(AddressError::EmptyResource)));
        }
    }
    r
}

/// Start a local container: `lxc start local:<container>`.
pub fn start_local_lxc(container: &str) -> (r: Result<CommandSpec, BuildError>)
    ensures
        (container@.len() > 0) ==> (r matches Ok(c) && c@.binary == Binary::Lxc && c@.argv =~= seq!["start"@, "local:"@ + container@]),
        (container@.len() == 0) ==> r == Err::<CommandSpec, BuildError>(BuildError::InvalidAddress(AddressError::EmptyResource)),
{
    let mut p = ParamSet::empty();
    p.name = Some(String::from_str(container));
    let ghost gp = p;
    let r = builder::build(ResourceKind::Container, Action::Start, p);
    proof {
        reveal_with_fuel(builder::first_missing, 10);
        reveal_with_fuel(builder::first_empty, 10);
        let toks = registry::spec_entry(ResourceKind::Container, Action::Start)->0;
        assert(builder::requires_param(toks, ParamName::Name)) by {
            assert(builder::token_requires(toks[1], ParamName::Name));
        }
        if container@.len() > 0 {
            assert(builder::spec_argv(toks, gp) =~= seq!["start"@, "local:"@ + container@]);
            assert(builder::spec_build(ResourceKind::Container, Action::Start, gp) matches Ok(c) && c.binary == Binary::Lxc && c.argv == builder::spec_argv(toks, gp));
        }
        if container@.len() == 0 {
            assert(builder::spec_build(ResourceKind::Container, Action::Start, gp) == Err::<CommandSpecV, BuildError>(BuildError::InvalidAddress(AddressError::EmptyResource)));
        }
    }
    r
}

/// Start a remote container: `lxc start <remote>:<container>`.
pub fn start_remote_lxc(remote: &str, container: &str) -> (r: Result<CommandSpec, BuildError>)
    ensures
        (valid_remote_name(remote@) && container@.len() > 0) ==> (r matches Ok(c) && c@.binary == Binary::Lxc && c@.argv =~= seq!["start"@, remote@ + ":"@ + container@]),
        (!valid_remote_name(remote@)) ==> r == Err::<CommandSpec, BuildError>(BuildError::InvalidAddress(AddressError::InvalidRemoteName)),
        (valid_remote_name(remote@) && container@.len() == 0) ==> r == Err::<CommandSpec, BuildError>(BuildError::InvalidAddress(AddressError::EmptyResource)),
{
    let mut p = ParamSet::empty();
    p.name = Some(String::from_str(container));
    p.remote = Some(String::from_str(remote));
    let ghost gp = p;
    let r = builder::build(ResourceKind::Container, Action::Start, p);
    proof {
        reveal_with_fuel(builder::first_missing, 10);
        reveal_with_fuel(builder::first_empty, 10);
        let toks = registry::spec_entry(ResourceKind::Container, Action::Start)->0;
        assert(builder::requires_param(toks, ParamName::Name)) by {
            assert(builder::token_requires(toks[1], ParamName::Name));
        }
        assert(builder::uses_src_scope(toks)) by {
            assert(builder::token_uses_src(toks[1]));
        }
        if valid_remote_name(remote@) && container@.len() > 0 {
            assert(builder::spec_argv(toks, gp) =~= seq!["start"@, remote@ + ":"@ + container@]);
            assert(builder::spec_build(ResourceKind::Container, Action::Start, gp) matches Ok(c) && c.binary == Binary::Lxc && c.argv == builder::spec_argv(toks, gp));
        }
        if !valid_remote_name(remote@) {
            assert(builder::spec_build(ResourceKind::Container, Action::Start, gp) == Err::<CommandSpecV, BuildError>(BuildError::InvalidAddress(AddressError::InvalidRemoteName)));
        }
        if valid_remote_name(remote@) && container@.len() == 0 {
            assert(builder::spec_build(ResourceKind::Container, Action::Start, gp) == Err::<CommandSpecV, BuildError>(BuildError::InvalidAddress(AddressError::EmptyResource)));
        }
    }
    r
}

/// Stop a local container: `lxc stop local:<container>`.
pub fn stop_local_lxc(container: &str) -> (r: Result<CommandSpec, BuildError>)
    ensures
        (container@.len() > 0) ==> (r matches Ok(c) && c@.binary == Binary::Lxc && c@.argv =~= seq!["stop"@, "local:"@ + container@]),
        (container@.len() == 0) ==> r == Err::<CommandSpec, BuildError>(BuildError::InvalidAddress(AddressError::EmptyResource)),
{
    let mut p = ParamSet::empty();
    p.name = Some(String::from_str(container));
    let ghost gp = p;
    let r = builder::build(ResourceKind::Container, Action::Stop, p);
    proof {
        reveal_with_fuel(builder::first_missing, 10);
        reveal_with_fuel(builder::first_empty, 10);
        let toks = registry::spec_entry(ResourceKind::Container, Action::Stop)->0;
        assert(builder::requires_param(toks, ParamName::Name)) by {
            assert(builder::token_requires(toks[1], ParamName::Name));
        }
        if container@.len() > 0 {
            assert(builder::spec_argv(toks, gp) =~= seq!["stop"@, "local:"@ + container@]);
            assert(builder::spec_build(ResourceKind::Container, Action::Stop, gp) matches Ok(c) && c.binary == Binary::Lxc && c.argv == builder::spec_argv(toks, gp));
        }
        if container@.len() == 0 {
            assert(builder::spec_build(ResourceKind::Container, Action::Stop, gp) == Err::<CommandSpecV, BuildError>(BuildError::InvalidAddress(AddressError::EmptyResource)));
        }
    }
    r
}

/// Stop a remote container: `lxc stop <remote>:<container>`.
pub fn stop_remote_lxc(remote: &str, container: &str) -> (r: Result<CommandSpec, BuildError>)
    ensures
        (valid_remote_name(remote@) && container@.len() > 0) ==> (r matches Ok(c) && c@.binary == Binary::Lxc && c@.argv =~= seq!["stop"@, remote@ + ":"@ + container@]),
        (!valid_remote_name(remote@)) ==> r == Err::<CommandSpec, BuildError>(BuildError::InvalidAddress(AddressError::InvalidRemoteName)),
        (valid_remote_name(remote@) && container@.len() == 0) ==> r == Err::<CommandSpec, BuildError>(BuildError::InvalidAddress(AddressError::EmptyResource)),
{
    let mut p = ParamSet::empty();
    p.name = Some(String::from_str(container));
    p.remote = Some(String::from_str(remote));
    let ghost gp = p;
    let r = builder::build(ResourceKind::Container, Action::Stop, p);
    proof {
        reveal_with_fuel(builder::first_missing, 10);
        reveal_with_fuel(builder::first_empty, 10);
        let toks = registry::spec_entry(ResourceKind::Container, Action::Stop)->0;
        assert(builder::requires_param(toks, ParamName::Name)) by {
            assert(builder::token_requires(toks[1], ParamName::Name));
        }
        assert(builder::uses_src_scope(toks)) by {
            assert(builder::token_uses_src(toks[1]));
        }
        if valid_remote_name(remote@) && container@.len() > 0 {
            assert(builder::spec_argv(toks, gp) =~= seq!["stop"@, remote@ + ":"@ + container@]);
            assert(builder::spec_build(ResourceKind::Container, Action::Stop, gp) matches Ok(c) && c.binary == Binary::Lxc && c.argv == builder::spec_argv(toks, gp));
        }
        if !valid_remote_name(remote@) {
            assert(builder::spec_build(ResourceKind::Container, Action::Stop, gp) == Err::<CommandSpecV, BuildError>(BuildError::InvalidAddress(AddressError::InvalidRemoteName)));
        }
        if valid_remote_name(remote@) && container@.len() == 0 {
            assert(builder::spec_build(ResourceKind::Container, Action::Stop, gp) == Err::<CommandSpecV, BuildError>(BuildError::InvalidAddress(AddressError::EmptyResource)));
        }
    }
    r
}

/// Delete a local container: `lxc delete local:<container>`.
pub fn del_local_lxc(container: &str) -> (r: Result<CommandSpec, BuildError>)
    ensures
        (container@.len() > 0) ==> (r matches Ok(c) && c@.binary == Binary::Lxc && c@.argv =~= seq!["delete"@, "local:"@ + container@]),
        (container@.len() == 0) ==> r == Err::<CommandSpec, BuildError>(BuildError::InvalidAddress(AddressError::EmptyResource)),
{
    let mut p = ParamSet::empty();
    p.name = Some(String::from_str(container));
    let ghost gp = p;
    let r = builder::build(ResourceKind::Container, Action::Delete, p);
    proof {
        reveal_with_fuel(builder::first_missing, 10);
        reveal_with_fuel(builder::first_empty, 10);
        let toks = registry::spec_entry(ResourceKind::Container, Action::Delete)->0;
        assert(builder::requires_param(toks, ParamName::Name)) by {
            assert(builder::token_requires(toks[1], ParamName::Name));
        }
        if container@.len() > 0 {
            assert(builder::spec_argv(toks, gp) =~= seq!["delete"@, "local:"@ + container@]);
            assert(builder::spec_build(ResourceKind::Container, Action::Delete, gp) matches Ok(c) && c.binary == Binary::Lxc && c.argv == builder::spec_argv(toks, gp));
        }
        if container@.len() == 0 {
            assert(builder::spec_build(ResourceKind::Container, Action::Delete, gp) == Err::<CommandSpecV, BuildError>(BuildError::InvalidAddress(AddressError::EmptyResource)));
        }
    }
    r
}

/// Delete a remote container: `lxc delete <remote>:<container>`.
pub fn del_remote_lxc(remote: &str, container: &str) -> (r: Result<CommandSpec, BuildError>)
    ensures
        (valid_remote_name(remote@) && container@.len() > 0) ==> (r matches Ok(c) && c@.binary == Binary::Lxc && c@.argv =~= seq!["delete"@, remote@ + ":"@ + container@]),
        (!valid_remote_name(remote@)) ==> r == Err::<CommandSpec, BuildError>(BuildError::InvalidAddress(AddressError::InvalidRemoteName)),
        (valid_remote_name(remote@) && container@.len() == 0) ==> r == Err::<CommandSpec, BuildError>(BuildError::InvalidAddress(AddressError::EmptyResource)),
{
    let mut p = ParamSet::empty();
    p.name = Some(String::from_str(container));
    p.remote = Some(String::from_str(remote));
    let ghost gp = p;
    let r = builder::build(ResourceKind::Container, Action::Delete, p);
    proof {
        reveal_with_fuel(builder::first_missing, 10);
        reveal_with_fuel(builder::first_empty, 10);
        let toks = registry::spec_entry(ResourceKind::Container, Action::Delete)->0;
        assert(builder::requires_param(toks, ParamName::Name)) by {
            assert(builder::token_requires(toks[1], ParamName::Name));
        }
        assert(builder::uses_src_scope(toks)) by {
            assert(builder::token_uses_src(toks[1]));
        }
        if valid_remote_name(remote@) && container@.len() > 0 {
            assert(builder::spec_argv(toks, gp) =~= seq!["delete"@, remote@ + ":"@ + container@]);
            assert(builder::spec_build(ResourceKind::Container, Action::Delete, gp) matches Ok(c) && c.binary == Binary::Lxc && c.argv == builder::spec_argv(toks, gp));
        }
        if !valid_remote_name(remote@) {
            assert(builder::spec_build(ResourceKind::Container, Action::Delete, gp) == Err::<CommandSpecV, BuildError>(BuildError::InvalidAddress(AddressError::InvalidRemoteName)));
        }
        if valid_remote_name(remote@) && container@.len() == 0 {
            assert(builder::spec_build(ResourceKind::Container, Action::Delete, gp) == Err::<CommandSpecV, BuildError>(BuildError::InvalidAddress(AddressError::EmptyResource)));
        }
    }
    r
}

/// Rename a local container: `lxc move local:<container> <new>`.
pub fn rename_local_lxc(container: &str, new_name: &str) -> (r: Result<CommandSpec, BuildError>)
    ensures
        (container@.len() > 0 && new_name@.len() > 0) ==> (r matches Ok(c) && c@.binary == Binary::Lxc && c@.argv =~= seq!["move"@, "local:"@ + container@, new_name@]),
        ((container@.len() == 0 || new_name@.len() == 0)) ==> r == Err::<CommandSpec, BuildError>(BuildError::InvalidAddress(AddressError::EmptyResource)),
{
    let mut p = ParamSet::empty();
    p.name = Some(String::from_str(container));
    p.new_name = Some(String::from_str(new_name));
    let ghost gp = p;
    let r = builder::build(ResourceKind::Container, Action::Rename, p);
    proof {
        reveal_with_fuel(builder::first_missing, 10);
        reveal_with_fuel(builder::first_empty, 10);
        let toks = registry::spec_entry(ResourceKind::Container, Action::Rename)->0;
        assert(builder::requires_param(toks, ParamName::Name)) by {
            assert(builder::token_requires(toks[1], ParamName::Name));
        }
        assert(builder::requires_param(toks, ParamName::NewName)) by {
            assert(builder::token_requires(toks[2], ParamName::NewName));
        }
        if container@.len() > 0 && new_name@.len() > 0 {
            assert(builder::spec_argv(toks, gp) =~= seq!["move"@, "local:"@ + container@, new_name@]);
            assert(builder::spec_build(ResourceKind::Container, Action::Rename, gp) matches Ok(c) && c.binary == Binary::Lxc && c.argv == builder::spec_argv(toks, gp));
        }
        if (container@.len() == 0 || new_name@.len() == 0) {
            assert(builder::spec_build(ResourceKind::Container, Action::Rename, gp) == Err::<CommandSpecV, BuildError>(BuildError::InvalidAddress(AddressError::EmptyResource)));
        }
    }
    r
}

/// Rename a container on a named remote, the new name carried on the
/// same remote: `lxc move <remote>:<container> <remote>:<new>`.
pub fn rename_remote_lxc(remote: &str, container: &str, new_name: &str) -> (r: Result<CommandSpec, BuildError>)
    ensures
        (valid_remote_name(remote@) && container@.len() > 0 && new_name@.len() > 0) ==> (r matches Ok(c) && c@.binary == Binary::Lxc && c@.argv =~= seq!["move"@, remote@ + ":"@ + container@, remote@ + ":"@ + new_name@]),
        (!valid_remote_name(remote@)) ==> r == Err::<CommandSpec, BuildError>(BuildError::InvalidAddress(AddressError::InvalidRemoteName)),
        (valid_remote_name(remote@) && (container@.len() == 0 || new_name@.len() == 0)) ==> r == Err::<CommandSpec, BuildError>(BuildError::InvalidAddress(AddressError::EmptyResource)),
{
    let mut p = ParamSet::empty();
    p.name = Some(String::from_str(container));
    p.new_name = Some(String::from_str(new_name));
    p.remote = Some(String::from_str(remote));
    p.dest_remote = Some(String::from_str(remote));
    let ghost gp = p;
    let r = builder::build(ResourceKind::Container, Action::Rename, p);
    proof {
        reveal_with_fuel(builder::first_missing, 10);
        reveal_with_fuel(builder::first_empty, 10);
        let toks = registry::spec_entry(ResourceKind::Container, Action::Rename)->0;
        assert(builder::requires_param(toks, ParamName::Name)) by {
            assert(builder::token_requires(toks[1], ParamName::Name));
        }
        assert(builder::requires_param(toks, ParamName::NewName)) by {
            assert(builder::token_requires(toks[2], ParamName::NewName));
        }
        assert(builder::uses_src_scope(toks)) by {
            assert(builder::token_uses_src(toks[1]));
        }
        assert(builder::uses_dst_scope(toks)) by {
            assert(builder::token_uses_dst(toks[2]));
        }
        if valid_remote_name(remote@) && container@.len() > 0 && new_name@.len() > 0 {
            assert(builder::spec_argv(toks, gp) =~= seq!["move"@, remote@ + ":"@ + container@, remote@ + ":"@ + new_name@]);
            assert(builder::spec_build(ResourceKind::Container, Action::Rename, gp) matches Ok(c) && c.binary == Binary::Lxc && c.argv == builder::spec_argv(toks, gp));
        }
        if !valid_remote_name(remote@) {
            assert(builder::spec_build(ResourceKind::Container, Action::Rename, gp) == Err::<CommandSpecV, BuildError>(BuildError::InvalidAddress(AddressError::InvalidRemoteName)));
        }
        if valid_remote_name(remote@) && (container@.len() == 0 || new_name@.len() == 0) {
            assert(builder::spec_build(ResourceKind::Container, Action::Rename, gp) == Err::<CommandSpecV, BuildError>(BuildError::InvalidAddress(AddressError::EmptyResource)));
        }
    }
    r
}

/// Restart a local container: `lxc restart local:<container>`.
pub fn restart_local_lxc(container: &str) -> (r: Result<CommandSpec, BuildError>)
    ensures
        (container@.len() > 0) ==> (r matches Ok(c) && c@.binary == Binary::Lxc && c@.argv =~= seq!["restart"@, "local:"@ + container@]),
        (container@.len() == 0) ==> r == Err::<CommandSpec, BuildError>(BuildError::InvalidAddress(AddressError::EmptyResource)),
{
    let mut p = ParamSet::empty();
    p.name = Some(String::from_str(container));
    let ghost gp = p;
    let r = builder::build(ResourceKind::Container, Action::Restart, p);
    proof {
        reveal_with_fuel(builder::first_missing, 10);
        reveal_with_fuel(builder::first_empty, 10);
        let toks = registry::spec_entry(ResourceKind::Container, Action::Restart)->0;
        assert(builder::requires_param(toks, ParamName::Name)) by {
            assert(builder::token_requires(toks[1], ParamName::Name));
        }
        if container@.len() > 0 {
            assert(builder::spec_argv(toks, gp) =~= seq!["restart"@, "local:"@ + container@]);
            assert(builder::spec_build(ResourceKind::Container, Action::Restart, gp) matches Ok(c) && c.binary == Binary::Lxc && c.argv == builder::spec_argv(toks, gp));
        }
        if container@.len() == 0 {
            assert(builder::spec_build(ResourceKind::Container, Action::Restart, gp) == Err::<CommandSpecV, BuildError>(BuildError::InvalidAddress(AddressError::EmptyResource)));
        }
    }
    r
}

/// Restart a remote container: `lxc restart <remote>:<container>`.
pub fn restart_remote_lxc(remote: &str, container: &str) -> (r: Result<CommandSpec, BuildError>)
    ensures
        (valid_remote_name(remote@) && container@.len() > 0) ==> (r matches Ok(c) && c@.binary == Binary::Lxc && c@.argv =~= seq!["restart"@, remote@ + ":"@ + container@]),
        (!valid_remote_name(remote@)) ==> r == Err::<CommandSpec, BuildError>(BuildError::InvalidAddress(AddressError::InvalidRemoteName)),
        (valid_remote_name(remote@) && container@.len() == 0) ==> r == Err::<CommandSpec, BuildError>(BuildError::InvalidAddress(AddressError::EmptyResource)),
{
    let mut p = ParamSet::empty();
    p.name = Some(String::from_str(container));
    p.remote = Some(String::from_str(remote));
    let ghost gp = p;
    let r = builder::build(ResourceKind::Container, Action::Restart, p);
    proof {
        reveal_with_fuel(builder::first_missing, 10);
        reveal_with_fuel(builder::first_empty, 10);
        let toks = registry::spec_entry(ResourceKind::Container, Action::Restart)->0;
        assert(builder::requires_param(toks, ParamName::Name)) by {
            assert(builder::token_requires(toks[1], ParamName::Name));
        }
        assert(builder::uses_src_scope(toks)) by {
            assert(builder::token_uses_src(toks[1]));
        }
        if valid_remote_name(remote@) && container@.len() > 0 {
            assert(builder::spec_argv(toks, gp) =~= seq!["restart"@, remote@ + ":"@ + container@]);
            assert(builder::spec_build(ResourceKind::Container, Action::Restart, gp) matches Ok(c) && c.binary == Binary::Lxc && c.argv == builder::spec_argv(toks, gp));
        }
        if !valid_remote_name(remote@) {
            assert(builder::spec_build(ResourceKind::Container, Action::Restart, gp) == Err::<CommandSpecV, BuildError>(BuildError::InvalidAddress(AddressError::InvalidRemoteName)));
        }
        if valid_remote_name(remote@) && container@.len() == 0 {
            assert(builder::spec_build(ResourceKind::Container, Action::Restart, gp) == Err::<CommandSpecV, BuildError>(BuildError::InvalidAddress(AddressError::EmptyResource)));
        }
    }
    r
}

/// Copy a local container to a second one.  Copies between instances
/// carry both addresses fully qualified, the local side included:
/// `lxc copy local:<from> local:<to>`.
pub fn copy_local_lxc(container: &str, to_container: &str) -> (r: Result<CommandSpec, BuildError>)
    ensures
        (container@.len() > 0 && to_container@.len() > 0) ==> (r matches Ok(c) && c@.binary == Binary::Lxc && c@.argv =~= seq!["copy"@, "local:"@ + container@, "local:"@ + to_container@]),
        ((container@.len() == 0 || to_container@.len() == 0)) ==> r == Err::<CommandSpec, BuildError>(BuildError::InvalidAddress(AddressError::EmptyResource)),
{
    let mut p = ParamSet::empty();
    p.name = Some(String::from_str(container));
    p.new_name = Some(String::from_str(to_container));
    let ghost gp = p;
    let r = builder::build(ResourceKind::Container, Action::Copy, p);
    proof {
        reveal_with_fuel(builder::first_missing, 10);
        reveal_with_fuel(builder::first_empty, 10);
        let toks = registry::spec_entry(ResourceKind::Container, Action::Copy)->0;
        assert(builder::requires_param(toks, ParamName::Name)) by {
            assert(builder::token_requires(toks[1], ParamName::Name));
        }
        assert(builder::requires_param(toks, ParamName::NewName)) by {
            assert(builder::token_requires(toks[2], ParamName::NewName));
        }
        if container@.len() > 0 && to_container@.len() > 0 {
            assert(builder::spec_argv(toks, gp) =~= seq!["copy"@, "local:"@ + container@, "local:"@ + to_container@]);
            assert(builder::spec_build(ResourceKind::Container, Action::Copy, gp) matches Ok(c) && c.binary == Binary::Lxc && c.argv == builder::spec_argv(toks, gp));
        }
        if (container@.len() == 0 || to_container@.len() == 0) {
            assert(builder::spec_build(ResourceKind::Container, Action::Copy, gp) == Err::<CommandSpecV, BuildError>(BuildError::InvalidAddress(AddressError::EmptyResource)));
        }
    }
    r
}

/// Copy a container of a named remote to a second one on the same
/// remote: `lxc copy <remote>:<from> <remote>:<to>`.
pub fn copy_remote_lxc(remote: &str, container: &str, to_container: &str) -> (r: Result<CommandSpec, BuildError>)
    ensures
        (valid_remote_name(remote@) && container@.len() > 0 && to_container@.len() > 0) ==> (r matches Ok(c) && c@.binary == Binary::Lxc && c@.argv =~= seq!["copy"@, remote@ + ":"@ + container@, remote@ + ":"@ + to_container@]),
        (!valid_remote_name(remote@)) ==> r == Err::<CommandSpec, BuildError>(BuildError::InvalidAddress(AddressError::InvalidRemoteName)),
        (valid_remote_name(remote@) && (container@.len() == 0 || to_container@.len() == 0)) ==> r == Err::<CommandSpec, BuildError>(BuildError::InvalidAddress(AddressError::EmptyResource)),
{
    let mut p = ParamSet::empty();
    p.name = Some(String::from_str(container));
    p.new_name = Some(String::from_str(to_container));
    p.remote = Some(String::from_str(remote));
    p.dest_remote = Some(String::from_str(remote));
    let ghost gp = p;
    let r = builder::build(ResourceKind::Container, Action::Copy, p);
    proof {
        reveal_with_fuel(builder::first_missing, 10);
        reveal_with_fuel(builder::first_empty, 10);
        let toks = registry::spec_entry(ResourceKind::Container, Action::Copy)->0;
        assert(builder::requires_param(toks, ParamName::Name)) by {
            assert(builder::token_requires(toks[1], ParamName::Name));
        }
        assert(builder::requires_param(toks, ParamName::NewName)) by {
            assert(builder::token_requires(toks[2], ParamName::NewName));
        }
        assert(builder::uses_src_scope(toks)) by {
            assert(builder::token_uses_src(toks[1]));
        }
        assert(builder::uses_dst_scope(toks)) by {
            assert(builder::token_uses_dst(toks[2]));
        }
        if valid_remote_name(remote@) && container@.len() > 0 && to_container@.len() > 0 {
            assert(builder::spec_argv(toks, gp) =~= seq!["copy"@, remote@ + ":"@ + container@, remote@ + ":"@ + to_container@]);
            assert(builder::spec_build(ResourceKind::Container, Action::Copy, gp) matches Ok(c) && c.binary == Binary::Lxc && c.argv == builder::spec_argv(toks, gp));
        }
        if !valid_remote_name(remote@) {
            assert(builder::spec_build(ResourceKind::Container, Action::Copy, gp) == Err::<CommandSpecV, BuildError>(BuildError::InvalidAddress(AddressError::InvalidRemoteName)));
        }
        if valid_remote_name(remote@) && (container@.len() == 0 || to_container@.len() == 0) {
            assert(builder::spec_build(ResourceKind::Container, Action::Copy, gp) == Err::<CommandSpecV, BuildError>(BuildError::InvalidAddress(AddressError::EmptyResource)));
        }
    }
    r
}

/// Show a local container's configuration:
/// `lxc config show local:<container>`.
pub fn get_local_lxc_config(container: &str) -> (r: Result<CommandSpec, BuildError>)
    ensures
        (container@.len() > 0) ==> (r matches Ok(c) && c@.binary == Binary::Lxc && c@.argv =~= seq!["config"@, "show"@, "local:"@ + container@]),
        (container@.len() == 0) ==> r == Err::<CommandSpec, BuildError>(BuildError::InvalidAddress(AddressError::EmptyResource)),
{
    let mut p = ParamSet::empty();
    p.name = Some(String::from_str(container));
    let ghost gp = p;
    let r = builder::build(ResourceKind::Container, Action::Show, p);
    proof {
        reveal_with_fuel(builder::first_missing, 10);
        reveal_with_fuel(builder::first_empty, 10);
        let toks = registry::spec_entry(ResourceKind::Container, Action::Show)->0;
        assert(builder::requires_param(toks, ParamName::Name)) by {
            assert(builder::token_requires(toks[2], ParamName::Name));
        }
        if container@.len() > 0 {
            assert(builder::spec_argv(toks, gp) =~= seq!["config"@, "show"@, "local:"@ + container@]);
            assert(builder::spec_build(ResourceKind::Container, Action::Show, gp) matches Ok(c) && c.binary == Binary::Lxc && c.argv == builder::spec_argv(toks, gp));
        }
        if container@.len() == 0 {
            assert(builder::spec_build(ResourceKind::Container, Action::Show, gp) == Err::<CommandSpecV, BuildError>(BuildError::InvalidAddress(AddressError::EmptyResource)));
        }
    }
    r
}

/// Show a remote container's configuration:
/// `lxc config show <remote>:<container>`.
pub fn get_remote_lxc_config(remote: &str, container: &str) -> (r: Result<CommandSpec, BuildError>)
    ensures
        (valid_remote_name(remote@) && container@.len() > 0) ==> (r matches Ok(c) && c@.binary == Binary::Lxc && c@.argv =~= seq!["config"@, "show"@, remote@ + ":"@ + container@]),
        (!valid_remote_name(remote@)) ==> r == Err::<CommandSpec, BuildError>(BuildError::InvalidAddress(AddressError::InvalidRemoteName)),
        (valid_remote_name(remote@) && container@.len() == 0) ==> r == Err::<CommandSpec, BuildError>(BuildError::InvalidAddress(AddressError::EmptyResource)),
{
    let mut p = ParamSet::empty();
    p.name = Some(String::from_str(container));
    p.remote = Some(String::from_str(remote));
    let ghost gp = p;
    let r = builder::build(ResourceKind::Container, Action::Show, p);
    proof {
        reveal_with_fuel(builder::first_missing, 10);
        reveal_with_fuel(builder::first_empty, 10);
        let toks = registry::spec_entry(ResourceKind::Container, Action::Show)->0;
        assert(builder::requires_param(toks, ParamName::Name)) by {
            assert(builder::token_requires(toks[2], ParamName::Name));
        }
        assert(builder::uses_src_scope(toks)) by {
            assert(builder::token_uses_src(toks[2]));
        }
        if valid_remote_name(remote@) && container@.len() > 0 {
            assert(builder::spec_argv(toks, gp) =~= seq!["config"@, "show"@, remote@ + ":"@ + container@]);
            assert(builder::spec_build(ResourceKind::Container, Action::Show, gp) matches Ok(c) && c.binary == Binary::Lxc && c.argv == builder::spec_argv(toks, gp));
        }
        if !valid_remote_name(remote@) {
            assert(builder::spec_build(ResourceKind::Container, Action::Show, gp) == Err::<CommandSpecV, BuildError>(BuildError::InvalidAddress(AddressError::InvalidRemoteName)));
        }
        if valid_remote_name(remote@) && container@.len() == 0 {
            assert(builder::spec_build(ResourceKind::Container, Action::Show, gp) == Err::<CommandSpecV, BuildError>(BuildError::InvalidAddress(AddressError::EmptyResource)));
        }
    }
    r
}

/// Push a file into a container: `lxc file push <source> <target>`.
pub fn push_file_in_lxc(file_path: &str, container_path: &str) -> (r: CommandSpec)
    ensures
        r@.binary == Binary::Lxc,
        r@.argv =~= seq!["file"@, "push"@, file_path@, container_path@],
{
    let mut argv: Vec<String> = Vec::new();
    argv.push(String::from_str("file"));
    argv.push(String::from_str("push"));
    argv.push(String::from_str(file_path));
    argv.push(String::from_str(container_path));
    proof {
        assert(argv.deep_view() =~= seq!["file"@, "push"@, file_path@, container_path@]);
    }
    CommandSpec { binary: Binary::Lxc, argv }
}

/// Pull a file out of a container: `lxc file pull <source> <target>`.
pub fn pull_file_from_lxc(container_path: &str, file_path: &str) -> (r: CommandSpec)
    ensures
        r@.binary == Binary::Lxc,
        r@.argv =~= seq!["file"@, "pull"@, container_path@, file_path@],
{
    let mut argv: Vec<String> = Vec::new();
    argv.push(String::from_str("file"));
    argv.push(String::from_str("pull"));
    argv.push(String::from_str(container_path));
    argv.push(String::from_str(file_path));
    proof {
        assert(argv.deep_view() =~= seq!["file"@, "pull"@, container_path@, file_path@]);
    }
    CommandSpec { binary: Binary::Lxc, argv }
}

} // verus!
