//! Profile operations: listing, creation, copying across scopes, and
//! attachment to containers.

use crate::address::AddressError;
use crate::address::valid_remote_name;
use crate::builder;
use crate::command::Action;
use crate::command::Binary;
use crate::command::BuildError;
use crate::command::CommandSpec;
use crate::command::CommandSpecV;
use crate::command::ParamName;
use crate::command::ParamSet;
use crate::command::ResourceKind;
use crate::registry;
use vstd::prelude::*;
use vstd::string::StringExecFns;

verus! {

/// List the local profiles: `lxc profile list local:`.
pub fn get_local_profiles() -> (r: Result<CommandSpec, BuildError>)
    ensures
        (r matches Ok(c) && c@.binary == Binary::Lxc && c@.argv =~= seq!["profile"@, "list"@, "local:"@]),
{
    let p = ParamSet::empty();
    let ghost gp = p;
    let r = builder::build(ResourceKind::Profile, Action::List, p);
    proof {
        reveal_with_fuel(builder::first_missing, 10);
        reveal_with_fuel(builder::first_empty, 10);
        let toks = registry::spec_entry(ResourceKind::Profile, Action::List)->0;
        assert(builder::spec_argv(toks, gp) =~= seq!["profile"@, "list"@, "local:"@]);
        assert(builder::spec_build(ResourceKind::Profile, Action::List, gp) matches Ok(c) && c.binary == Binary::Lxc && c.argv == builder::spec_argv(toks, gp));
    }
    r
}

/// List the profiles of a named remote: `lxc profile list <remote>:`.
pub fn get_remote_profiles(remote: &str) -> (r: Result<CommandSpec, BuildError>)
    ensures
        (valid_remote_name(remote@)) ==> (r matches Ok(c) && c@.binary == Binary::Lxc && c@.argv =~= seq!["profile"@, "list"@, remote@ + ":"@]),
        (!valid_remote_name(remote@)) ==> r == Err::<CommandSpec, BuildError>(BuildError::InvalidAddress(AddressError::InvalidRemoteName)),
{
    let mut p = ParamSet::empty();
    p.remote = Some(String::from_str(remote));
    let ghost gp = p;
    let r = builder::build(ResourceKind::Profile, Action::List, p);
    proof {
        reveal_with_fuel(builder::first_missing, 10);
        reveal_with_fuel(builder::first_empty, 10);
        let toks = registry::spec_entry(ResourceKind::Profile, Action::List)->0;
        assert(builder::uses_src_scope(toks)) by {
            assert(builder::token_uses_src(toks[2]));
        }
        if valid_remote_name(remote@) {
            assert(builder::spec_argv(toks, gp) =~= seq!["profile"@, "list"@, remote@ + ":"@]);
            assert(builder::spec_build(ResourceKind::Profile, Action::List, gp) matches Ok(c) && c.binary == Binary::Lxc && c.argv == builder::spec_argv(toks, gp));
        }
        if !valid_remote_name(remote@) {
            assert(builder::spec_build(ResourceKind::Profile, Action::List, gp) == Err::<CommandSpecV, BuildError>(BuildError::InvalidAddress(AddressError::InvalidRemoteName)));
        }
    }
    r
}

/// Show a local profile: `lxc profile show local:<profile>`.
pub fn get_local_profile_info(profile: &str) -> (r: Result<CommandSpec, BuildError>)
    ensures
        (profile@.len() > 0) ==> (r matches Ok(c) && c@.binary == Binary::Lxc && c@.argv =~= seq!["profile"@, "show"@, "local:"@ + profile@]),
        (profile@.len() == 0) ==> r == Err::<CommandSpec, BuildError>(BuildError::InvalidAddress(AddressError::EmptyResource)),
{
    let mut p = ParamSet::empty();
    p.name = Some(String::from_str(profile));
    let ghost gp = p;
    let r = builder::build(ResourceKind::Profile, Action::Show, p);
    proof {
        reveal_with_fuel(builder::first_missing, 10);
        reveal_with_fuel(builder::first_empty, 10);
        let toks = registry::spec_entry(ResourceKind::Profile, Action::Show)->0;
        assert(builder::requires_param(toks, ParamName::Name)) by {
            assert(builder::token_requires(toks[2], ParamName::Name));
        }
        if profile@.len() > 0 {
            assert(builder::spec_argv(toks, gp) =~= seq!["profile"@, "show"@, "local:"@ + profile@]);
            assert(builder::spec_build(ResourceKind::Profile, Action::Show, gp) matches Ok(c) && c.binary == Binary::Lxc && c.argv == builder::spec_argv(toks, gp));
        }
        if profile@.len() == 0 {
            assert(builder::spec_build(ResourceKind::Profile, Action::Show, gp) == Err::<CommandSpecV, BuildError>(BuildError::InvalidAddress(AddressError::EmptyResource)));
        }
    }
    r
}

/// Show a remote profile: `lxc profile show <remote>:<profile>`.
pub fn get_remote_profile_info(remote: &str, profile: &str) -> (r: Result<CommandSpec, BuildError>)
    ensures
        (valid_remote_name(remote@) && profile@.len() > 0) ==> (r matches Ok(c) && c@.binary == Binary::Lxc && c@.argv =~= seq!["profile"@, "show"@, remote@ + ":"@ + profile@]),
        (!valid_remote_name(remote@)) ==> r == Err::<CommandSpec, BuildError>(BuildError::InvalidAddress(AddressError::InvalidRemoteName)),
        (valid_remote_name(remote@) && profile@.len() == 0) ==> r == Err::<CommandSpec, BuildError>(BuildError::InvalidAddress(AddressError::EmptyResource)),
{
    let mut p = ParamSet::empty();
    p.name = Some(String::from_str(profile));
    p.remote = Some(String::from_str(remote));
    let ghost gp = p;
    let r = builder::build(ResourceKind::Profile, Action::Show, p);
    proof {
        reveal_with_fuel(builder::first_missing, 10);
        reveal_with_fuel(builder::first_empty, 10);
        let toks = registry::spec_entry(ResourceKind::Profile, Action::Show)->0;
        assert(builder::requires_param(toks, ParamName::Name)) by {
            assert(builder::token_requires(toks[2], ParamName::Name));
        }
        assert(builder::uses_src_scope(toks)) by {
            assert(builder::token_uses_src(toks[2]));
        }
        if valid_remote_name(remote@) && profile@.len() > 0 {
            assert(builder::spec_argv(toks, gp) =~= seq!["profile"@, "show"@, remote@ + ":"@ + profile@]);
            assert(builder::spec_build(ResourceKind::Profile, Action::Show, gp) matches Ok(c) && c.binary == Binary::Lxc && c.argv == builder::spec_argv(toks, gp));
        }
        if !valid_remote_name(remote@) {
            assert(builder::spec_build(ResourceKind::Profile, Action::Show, gp) == Err::<CommandSpecV, BuildError>(BuildError::InvalidAddress(AddressError::InvalidRemoteName)));
        }
        if valid_remote_name(remote@) && profile@.len() == 0 {
            assert(builder::spec_build(ResourceKind::Profile, Action::Show, gp) == Err::<CommandSpecV, BuildError>(BuildError::InvalidAddress(AddressError::EmptyResource)));
        }
    }
    r
}

/// Delete a local profile: `lxc profile delete local:<profile>`.
pub fn del_local_profile(profile: &str) -> (r: Result<CommandSpec, BuildError>)
    ensures
        (profile@.len() > 0) ==> (r matches Ok(c) && c@.binary == Binary::Lxc && c@.argv =~= seq!["profile"@, "delete"@, "local:"@ + profile@]),
        (profile@.len() == 0) ==> r == Err::<CommandSpec, BuildError>(BuildError::InvalidAddress(AddressError::EmptyResource)),
{
    let mut p = ParamSet::empty();
    p.name = Some(String::from_str(profile));
    let ghost gp = p;
    let r = builder::build(ResourceKind::Profile, Action::Delete, p);
    proof {
        reveal_with_fuel(builder::first_missing, 10);
        reveal_with_fuel(builder::first_empty, 10);
        let toks = registry::spec_entry(ResourceKind::Profile, Action::Delete)->0;
        assert(builder::requires_param(toks, ParamName::Name)) by {
            assert(builder::token_requires(toks[2], ParamName::Name));
        }
        if profile@.len() > 0 {
            assert(builder::spec_argv(toks, gp) =~= seq!["profile"@, "delete"@, "local:"@ + profile@]);
            assert(builder::spec_build(ResourceKind::Profile, Action::Delete, gp) matches Ok(c) && c.binary == Binary::Lxc && c.argv == builder::spec_argv(toks, gp));
        }
        if profile@.len() == 0 {
            assert(builder::spec_build(ResourceKind::Profile, Action::Delete, gp) == Err::<CommandSpecV, BuildError>(BuildError::InvalidAddress(AddressError::EmptyResource)));
        }
    }
    r
}

/// Delete a remote profile: `lxc profile delete <remote>:<profile>`.
pub fn del_remote_profile(remote: &str, profile: &str) -> (r: Result<CommandSpec, BuildError>)
    ensures
        (valid_remote_name(remote@) && profile@.len() > 0) ==> (r matches Ok(c) && c@.binary == Binary::Lxc && c@.argv =~= seq!["profile"@, "delete"@, remote@ + ":"@ + profile@]),
        (!valid_remote_name(remote@)) ==> r == Err::<CommandSpec, BuildError>(BuildError::InvalidAddress(AddressError::InvalidRemoteName)),
        (valid_remote_name(remote@) && profile@.len() == 0) ==> r == Err::<CommandSpec, BuildError>(BuildError::InvalidAddress(AddressError::EmptyResource)),
{
    let mut p = ParamSet::empty();
    p.name = Some(String::from_str(profile));
    p.remote = Some(String::from_str(remote));
    let ghost gp = p;
    let r = builder::build(ResourceKind::Profile, Action::Delete, p);
    proof {
        reveal_with_fuel(builder::first_missing, 10);
        reveal_with_fuel(builder::first_empty, 10);
        let toks = registry::spec_entry(ResourceKind::Profile, Action::Delete)->0;
        assert(builder::requires_param(toks, ParamName::Name)) by {
            assert(builder::token_requires(toks[2], ParamName::Name));
        }
        assert(builder::uses_src_scope(toks)) by {
            assert(builder::token_uses_src(toks[2]));
        }
        if valid_remote_name(remote@) && profile@.len() > 0 {
            assert(builder::spec_argv(toks, gp) =~= seq!["profile"@, "delete"@, remote@ + ":"@ + profile@]);
            assert(builder::spec_build(ResourceKind::Profile, Action::Delete, gp) matches Ok(c) && c.binary == Binary::Lxc && c.argv == builder::spec_argv(toks, gp));
        }
        if !valid_remote_name(remote@) {
            assert(builder::spec_build(ResourceKind::Profile, Action::Delete, gp) == Err::<CommandSpecV, BuildError>(BuildError::InvalidAddress(AddressError::InvalidRemoteName)));
        }
        if valid_remote_name(remote@) && profile@.len() == 0 {
            assert(builder::spec_build(ResourceKind::Profile, Action::Delete, gp) == Err::<CommandSpecV, BuildError>(BuildError::InvalidAddress(AddressError::EmptyResource)));
        }
    }
    r
}

/// Copy a local profile: `lxc profile copy local:<first> local:<second>`.
pub fn copy_local_profile(first: &str, second: &str) -> (r: Result<CommandSpec, BuildError>)
    ensures
        (first@.len() > 0 && second@.len() > 0) ==> (r matches Ok(c) && c@.binary == Binary::Lxc && c@.argv =~= seq!["profile"@, "copy"@, "local:"@ + first@, "local:"@ + second@]),
        ((first@.len() == 0 || second@.len() == 0)) ==> r == Err::<CommandSpec, BuildError>(BuildError::InvalidAddress(AddressError::EmptyResource)),
{
    let mut p = ParamSet::empty();
    p.name = Some(String::from_str(first));
    p.new_name = Some(String::from_str(second));
    let ghost gp = p;
    let r = builder::build(ResourceKind::Profile, Action::Copy, p);
    proof {
        reveal_with_fuel(builder::first_missing, 10);
        reveal_with_fuel(builder::first_empty, 10);
        let toks = registry::spec_entry(ResourceKind::Profile, Action::Copy)->0;
        assert(builder::requires_param(toks, ParamName::Name)) by {
            assert(builder::token_requires(toks[2], ParamName::Name));
        }
        assert(builder::requires_param(toks, ParamName::NewName)) by {
            assert(builder::token_requires(toks[3], ParamName::NewName));
        }
        if first@.len() > 0 && second@.len() > 0 {
            assert(builder::spec_argv(toks, gp) =~= seq!["profile"@, "copy"@, "local:"@ + first@, "local:"@ + second@]);
            assert(builder::spec_build(ResourceKind::Profile, Action::Copy, gp) matches Ok(c) && c.binary == Binary::Lxc && c.argv == builder::spec_argv(toks, gp));
        }
        if (first@.len() == 0 || second@.len() == 0) {
            assert(builder::spec_build(ResourceKind::Profile, Action::Copy, gp) == Err::<CommandSpecV, BuildError>(BuildError::InvalidAddress(AddressError::EmptyResource)));
        }
    }
    r
}

/// Copy a profile within a named remote:
/// `lxc profile copy <remote>:<first> <remote>:<second>`.
pub fn copy_remote_profile(remote: &str, first: &str, second: &str) -> (r: Result<CommandSpec, BuildError>)
    ensures
        (valid_remote_name(remote@) && first@.len() > 0 && second@.len() > 0) ==> (r matches Ok(c) && c@.binary == Binary::Lxc && c@.argv =~= seq!["profile"@, "copy"@, remote@ + ":"@ + first@, remote@ + ":"@ + second@]),
        (!valid_remote_name(remote@)) ==> r == Err::<CommandSpec, BuildError>(BuildError::InvalidAddress(AddressError::InvalidRemoteName)),
        (valid_remote_name(remote@) && (first@.len() == 0 || second@.len() == 0)) ==> r == Err::<CommandSpec, BuildError>(BuildError::InvalidAddress(AddressError::EmptyResource)),
{
    let mut p = ParamSet::empty();
    p.name = Some(String::from_str(first));
    p.new_name = Some(String::from_str(second));
    p.remote = Some(String::from_str(remote));
    p.dest_remote = Some(String::from_str(remote));
    let ghost gp = p;
    let r = builder::build(ResourceKind::Profile, Action::Copy, p);
    proof {
        reveal_with_fuel(builder::first_missing, 10);
        reveal_with_fuel(builder::first_empty, 10);
        let toks = registry::spec_entry(ResourceKind::Profile, Action::Copy)->0;
        assert(builder::requires_param(toks, ParamName::Name)) by {
            assert(builder::token_requires(toks[2], ParamName::Name));
        }
        assert(builder::requires_param(toks, ParamName::NewName)) by {
            assert(builder::token_requires(toks[3], ParamName::NewName));
        }
        assert(builder::uses_src_scope(toks)) by {
            assert(builder::token_uses_src(toks[2]));
        }
        assert(builder::uses_dst_scope(toks)) by {
            assert(builder::token_uses_dst(toks[3]));
        }
        if valid_remote_name(remote@) && first@.len() > 0 && second@.len() > 0 {
            assert(builder::spec_argv(toks, gp) =~= seq!["profile"@, "copy"@, remote@ + ":"@ + first@, remote@ + ":"@ + second@]);
            assert(builder::spec_build(ResourceKind::Profile, Action::Copy, gp) matches Ok(c) && c.binary == Binary::Lxc && c.argv == builder::spec_argv(toks, gp));
        }
        if !valid_remote_name(remote@) {
            assert(builder::spec_build(ResourceKind::Profile, Action::Copy, gp) == Err::<CommandSpecV, BuildError>(BuildError::InvalidAddress(AddressError::InvalidRemoteName)));
        }
        if valid_remote_name(remote@) && (first@.len() == 0 || second@.len() == 0) {
            assert(builder::spec_build(ResourceKind::Profile, Action::Copy, gp) == Err::<CommandSpecV, BuildError>(BuildError::InvalidAddress(AddressError::EmptyResource)));
        }
    }
    r
}

/// Copy a profile from a named remote to the local instance:
/// `lxc profile copy <remote>:<first> local:<second>`.
pub fn copy_from_remote_to_local(remote: &str, first: &str, second: &str) -> (r: Result<CommandSpec, BuildError>)
    ensures
        (valid_remote_name(remote@) && first@.len() > 0 && second@.len() > 0) ==> (r matches Ok(c) && c@.binary == Binary::Lxc && c@.argv =~= seq!["profile"@, "copy"@, remote@ + ":"@ + first@, "local:"@ + second@]),
        (!valid_remote_name(remote@)) ==> r == Err::<CommandSpec, BuildError>(BuildError::InvalidAddress(AddressError::InvalidRemoteName)),
        (valid_remote_name(remote@) && (first@.len() == 0 || second@.len() == 0)) ==> r == Err::<CommandSpec, BuildError>(BuildError::InvalidAddress(AddressError::EmptyResource)),
{
    let mut p = ParamSet::empty();
    p.name = Some(String::from_str(first));
    p.new_name = Some(String::from_str(second));
    p.remote = Some(String::from_str(remote));
    let ghost gp = p;
    let r = builder::build(ResourceKind::Profile, Action::Copy, p);
    proof {
        reveal_with_fuel(builder::first_missing, 10);
        reveal_with_fuel(builder::first_empty, 10);
        let toks = registry::spec_entry(ResourceKind::Profile, Action::Copy)->0;
        assert(builder::requires_param(toks, ParamName::Name)) by {
            assert(builder::token_requires(toks[2], ParamName::Name));
        }
        assert(builder::requires_param(toks, ParamName::NewName)) by {
            assert(builder::token_requires(toks[3], ParamName::NewName));
        }
        assert(builder::uses_src_scope(toks)) by {
            assert(builder::token_uses_src(toks[2]));
        }
        if valid_remote_name(remote@) && first@.len() > 0 && second@.len() > 0 {
            assert(builder::spec_argv(toks, gp) =~= seq!["profile"@, "copy"@, remote@ + ":"@ + first@, "local:"@ + second@]);
            assert(builder::spec_build(ResourceKind::Profile, Action::Copy, gp) matches Ok(c) && c.binary == Binary::Lxc && c.argv == builder::spec_argv(toks, gp));
        }
        if !valid_remote_name(remote@) {
            assert(builder::spec_build(ResourceKind::Profile, Action::Copy, gp) == Err::<CommandSpecV, BuildError>(BuildError::InvalidAddress(AddressError::InvalidRemoteName)));
        }
        if valid_remote_name(remote@) && (first@.len() == 0 || second@.len() == 0) {
            assert(builder::spec_build(ResourceKind::Profile, Action::Copy, gp) == Err::<CommandSpecV, BuildError>(BuildError::InvalidAddress(AddressError::EmptyResource)));
        }
    }
    r
}

/// Copy a local profile to a named remote:
/// `lxc profile copy local:<first> <remote>:<second>`.
pub fn copy_from_local_to_remote(remote: &str, first: &str, second: &str) -> (r: Result<CommandSpec, BuildError>)
    ensures
        (valid_remote_name(remote@) && first@.len() > 0 && second@.len() > 0) ==> (r matches Ok(c) && c@.binary == Binary::Lxc && c@.argv =~= seq!["profile"@, "copy"@, "local:"@ + first@, remote@ + ":"@ + second@]),
        (!valid_remote_name(remote@)) ==> r == Err::<CommandSpec, BuildError>(BuildError::InvalidAddress(AddressError::InvalidRemoteName)),
        (valid_remote_name(remote@) && (first@.len() == 0 || second@.len() == 0)) ==> r == Err::<CommandSpec, BuildError>(BuildError::InvalidAddress(AddressError::EmptyResource)),
{
    let mut p = ParamSet::empty();
    p.name = Some(String::from_str(first));
    p.new_name = Some(String::from_str(second));
    p.dest_remote = Some(String::from_str(remote));
    let ghost gp = p;
    let r = builder::build(ResourceKind::Profile, Action::Copy, p);
    proof {
        reveal_with_fuel(builder::first_missing, 10);
        reveal_with_fuel(builder::first_empty, 10);
        let toks = registry::spec_entry(ResourceKind::Profile, Action::Copy)->0;
        assert(builder::requires_param(toks, ParamName::Name)) by {
            assert(builder::token_requires(toks[2], ParamName::Name));
        }
        assert(builder::requires_param(toks, ParamName::NewName)) by {
            assert(builder::token_requires(toks[3], ParamName::NewName));
        }
        assert(builder::uses_dst_scope(toks)) by {
            assert(builder::token_uses_dst(toks[3]));
        }
        if valid_remote_name(remote@) && first@.len() > 0 && second@.len() > 0 {
            assert(builder::spec_argv(toks, gp) =~= seq!["profile"@, "copy"@, "local:"@ + first@, remote@ + ":"@ + second@]);
            assert(builder::spec_build(ResourceKind::Profile, Action::Copy, gp) matches Ok(c) && c.binary == Binary::Lxc && c.argv == builder::spec_argv(toks, gp));
        }
        if !valid_remote_name(remote@) {
            assert(builder::spec_build(ResourceKind::Profile, Action::Copy, gp) == Err::<CommandSpecV, BuildError>(BuildError::InvalidAddress(AddressError::InvalidRemoteName)));
        }
        if valid_remote_name(remote@) && (first@.len() == 0 || second@.len() == 0) {
            assert(builder::spec_build(ResourceKind::Profile, Action::Copy, gp) == Err::<CommandSpecV, BuildError>(BuildError::InvalidAddress(AddressError::EmptyResource)));
        }
    }
    r
}

/// Rename a local profile: `lxc profile rename <first> <second>`.
pub fn rename_local_profile(first: &str, second: &str) -> (r: Result<CommandSpec, BuildError>)
    ensures
        (r matches Ok(c) && c@.binary == Binary::Lxc && c@.argv =~= seq!["profile"@, "rename"@, first@, second@]),
{
    let mut p = ParamSet::empty();
    p.name = Some(String::from_str(first));
    p.new_name = Some(String::from_str(second));
    let ghost gp = p;
    let r = builder::build(ResourceKind::Profile, Action::Rename, p);
    proof {
        reveal_with_fuel(builder::first_missing, 10);
        reveal_with_fuel(builder::first_empty, 10);
        let toks = registry::spec_entry(ResourceKind::Profile, Action::Rename)->0;
        assert(builder::requires_param(toks, ParamName::Name)) by {
            assert(builder::token_requires(toks[2], ParamName::Name));
        }
        assert(builder::requires_param(toks, ParamName::NewName)) by {
            assert(builder::token_requires(toks[3], ParamName::NewName));
        }
        assert(builder::spec_argv(toks, gp) =~= seq!["profile"@, "rename"@, first@, second@]);
        assert(builder::spec_build(ResourceKind::Profile, Action::Rename, gp) matches Ok(c) && c.binary == Binary::Lxc && c.argv == builder::spec_argv(toks, gp));
    }
    r
}

/// Create a local profile: `lxc profile create local:<profile>`.
pub fn create_local_profile(profile: &str) -> (r: Result<CommandSpec, BuildError>)
    ensures
        (profile@.len() > 0) ==> (r matches Ok(c) && c@.binary == Binary::Lxc && c@.argv =~= seq!["profile"@, "create"@, "local:"@ + profile@]),
        (profile@.len() == 0) ==> r == Err::<CommandSpec, BuildError>(BuildError::InvalidAddress(AddressError::EmptyResource)),
{
    let mut p = ParamSet::empty();
    p.name = Some(String::from_str(profile));
    let ghost gp = p;
    let r = builder::build(ResourceKind::Profile, Action::Create, p);
    proof {
        reveal_with_fuel(builder::first_missing, 10);
        reveal_with_fuel(builder::first_empty, 10);
        let toks = registry::spec_entry(ResourceKind::Profile, Action::Create)->0;
        assert(builder::requires_param(toks, ParamName::Name)) by {
            assert(builder::token_requires(toks[2], ParamName::Name));
        }
        if profile@.len() > 0 {
            assert(builder::spec_argv(toks, gp) =~= seq!["profile"@, "create"@, "local:"@ + profile@]);
            assert(builder::spec_build(ResourceKind::Profile, Action::Create, gp) matches Ok(c) && c.binary == Binary::Lxc && c.argv == builder::spec_argv(toks, gp));
        }
        if profile@.len() == 0 {
            assert(builder::spec_build(ResourceKind::Profile, Action::Create, gp) == Err::<CommandSpecV, BuildError>(BuildError::InvalidAddress(AddressError::EmptyResource)));
        }
    }
    r
}

/// Create a remote profile: `lxc profile create <remote>:<profile>`.
pub fn create_remote_profile(remote: &str, profile: &str) -> (r: Result<CommandSpec, BuildError>)
    ensures
        (valid_remote_name(remote@) && profile@.len() > 0) ==> (r matches Ok(c) && c@.binary == Binary::Lxc && c@.argv =~= seq!["profile"@, "create"@, remote@ + ":"@ + profile@]),
        (!valid_remote_name(remote@)) ==> r == Err::<CommandSpec, BuildError>(BuildError::InvalidAddress(AddressError::InvalidRemoteName)),
        (valid_remote_name(remote@) && profile@.len() == 0) ==> r == Err::<CommandSpec, BuildError>(BuildError::InvalidAddress(AddressError::EmptyResource)),
{
    let mut p = ParamSet::empty();
    p.name = Some(String::from_str(profile));
    p.remote = Some(String::from_str(remote));
    let ghost gp = p;
    let r = builder::build(ResourceKind::Profile, Action::Create, p);
    proof {
        reveal_with_fuel(builder::first_missing, 10);
        reveal_with_fuel(builder::first_empty, 10);
        let toks = registry::spec_entry(ResourceKind::Profile, Action::Create)->0;
        assert(builder::requires_param(toks, ParamName::Name)) by {
            assert(builder::token_requires(toks[2], ParamName::Name));
        }
        assert(builder::uses_src_scope(toks)) by {
            assert(builder::token_uses_src(toks[2]));
        }
        if valid_remote_name(remote@) && profile@.len() > 0 {
            assert(builder::spec_argv(toks, gp) =~= seq!["profile"@, "create"@, remote@ + ":"@ + profile@]);
            assert(builder::spec_build(ResourceKind::Profile, Action::Create, gp) matches Ok(c) && c.binary == Binary::Lxc && c.argv == builder::spec_argv(toks, gp));
        }
        if !valid_remote_name(remote@) {
            assert(builder::spec_build(ResourceKind::Profile, Action::Create, gp) == Err::<CommandSpecV, BuildError>(BuildError::InvalidAddress(AddressError::InvalidRemoteName)));
        }
        if valid_remote_name(remote@) && profile@.len() == 0 {
            assert(builder::spec_build(ResourceKind::Profile, Action::Create, gp) == Err::<CommandSpecV, BuildError>(BuildError::InvalidAddress(AddressError::EmptyResource)));
        }
    }
    r
}

/// Remove a profile from a local container: `lxc profile remove <container>`.
pub fn take_off_profile_from_local_lxc(container: &str) -> (r: Result<CommandSpec, BuildError>)
    ensures
        (container@.len() > 0) ==> (r matches Ok(c) && c@.binary == Binary::Lxc && c@.argv =~= seq!["profile"@, "remove"@, container@]),
        (container@.len() == 0) ==> r == Err::<CommandSpec, BuildError>(BuildError::InvalidAddress(AddressError::EmptyResource)),
{
    let mut p = ParamSet::empty();
    p.name = Some(String::from_str(container));
    let ghost gp = p;
    let r = builder::build(ResourceKind::Profile, Action::Detach, p);
    proof {
        reveal_with_fuel(builder::first_missing, 10);
        reveal_with_fuel(builder::first_empty, 10);
        let toks = registry::spec_entry(ResourceKind::Profile, Action::Detach)->0;
        assert(builder::requires_param(toks, ParamName::Name)) by {
            assert(builder::token_requires(toks[2], ParamName::Name));
        }
        if container@.len() > 0 {
            assert(builder::spec_argv(toks, gp) =~= seq!["profile"@, "remove"@, container@]);
            assert(builder::spec_build(ResourceKind::Profile, Action::Detach, gp) matches Ok(c) && c.binary == Binary::Lxc && c.argv == builder::spec_argv(toks, gp));
        }
        if container@.len() == 0 {
            assert(builder::spec_build(ResourceKind::Profile, Action::Detach, gp) == Err::<CommandSpecV, BuildError>(BuildError::InvalidAddress(AddressError::EmptyResource)));
        }
    }
    r
}

/// Remove a profile from a remote container:
/// `lxc profile remove <remote>:<container>`.
pub fn take_off_profile_from_remote_lxc(remote: &str, container: &str) -> (r: Result<CommandSpec, BuildError>)
    ensures
        (valid_remote_name(remote@) && container@.len() > 0) ==> (r matches Ok(c) && c@.binary == Binary::Lxc && c@.argv =~= seq!["profile"@, "remove"@, remote@ + ":"@ + container@]),
        (!valid_remote_name(remote@)) ==> r == Err::<CommandSpec, BuildError>(BuildError::InvalidAddress(AddressError::InvalidRemoteName)),
        (valid_remote_name(remote@) && container@.len() == 0) ==> r == Err::<CommandSpec, BuildError>(BuildError::InvalidAddress(AddressError::EmptyResource)),
{
    let mut p = ParamSet::empty();
    p.name = Some(String::from_str(container));
    p.remote = Some(String::from_str(remote));
    let ghost gp = p;
    let r = builder::build(ResourceKind::Profile, Action::Detach, p);
    proof {
        reveal_with_fuel(builder::first_missing, 10);
        reveal_with_fuel(builder::first_empty, 10);
        let toks = registry::spec_entry(ResourceKind::Profile, Action::Detach)->0;
        assert(builder::requires_param(toks, ParamName::Name)) by {
            assert(builder::token_requires(toks[2], ParamName::Name));
        }
        assert(builder::uses_src_scope(toks)) by {
            assert(builder::token_uses_src(toks[2]));
        }
        if valid_remote_name(remote@) && container@.len() > 0 {
            assert(builder::spec_argv(toks, gp) =~= seq!["profile"@, "remove"@, remote@ + ":"@ + container@]);
            assert(builder::spec_build(ResourceKind::Profile, Action::Detach, gp) matches Ok(c) && c.binary == Binary::Lxc && c.argv == builder::spec_argv(toks, gp));
        }
        if !valid_remote_name(remote@) {
            assert(builder::spec_build(ResourceKind::Profile, Action::Detach, gp) == Err::<CommandSpecV, BuildError>(BuildError::InvalidAddress(AddressError::InvalidRemoteName)));
        }
        if valid_remote_name(remote@) && container@.len() == 0 {
            assert(builder::spec_build(ResourceKind::Profile, Action::Detach, gp) == Err::<CommandSpecV, BuildError>(BuildError::InvalidAddress(AddressError::EmptyResource)));
        }
    }
    r
}

} // verus!
