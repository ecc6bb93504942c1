//! Background operation handling.

use crate::address::AddressError;
use crate::address::valid_remote_name;
use crate::builder;
use crate::command::Action;
use crate::command::Binary;
use crate::command::BuildError;
use crate::command::CommandSpec;
use crate::command::CommandSpecV;
use crate::command::ParamName;
use crate::command::ParamSet;
use crate::command::ResourceKind;
use crate::registry;
use vstd::prelude::*;
use vstd::string::StringExecFns;

verus! {

/// List the local background operations: `lxc operation list local:`.
pub fn get_local_background_operations() -> (r: Result<CommandSpec, BuildError>)
    ensures
        (r matches Ok(c) && c@.binary == Binary::Lxc && c@.argv =~= seq!["operation"@, "list"@, "local:"@]),
{
    let p = ParamSet::empty();
    let ghost gp = p;
    let r = builder::build(ResourceKind::Operation, Action::List, p);
    proof {
        reveal_with_fuel(builder::first_missing, 10);
        reveal_with_fuel(builder::first_empty, 10);
        let toks = registry::spec_entry(ResourceKind::Operation, Action::List)->0;
        assert(builder::spec_argv(toks, gp) =~= seq!["operation"@, "list"@, "local:"@]);
        assert(builder::spec_build(ResourceKind::Operation, Action::List, gp) matches Ok(c) && c.binary == Binary::Lxc && c.argv == builder::spec_argv(toks, gp));
    }
    r
}

/// List the background operations of a named remote:
/// `lxc operation list <remote>:`.
pub fn get_remote_background_operations(remote: &str) -> (r: Result<CommandSpec, BuildError>)
    ensures
        (valid_remote_name(remote@)) ==> (r matches Ok(c) && c@.binary == Binary::Lxc && c@.argv =~= seq!["operation"@, "list"@, remote@ + ":"@]),
        (!valid_remote_name(remote@)) ==> r == Err::<CommandSpec, BuildError>(BuildError::InvalidAddress(AddressError::InvalidRemoteName)),
{
    let mut p = ParamSet::empty();
    p.remote = Some(String::from_str(remote));
    let ghost gp = p;
    let r = builder::build(ResourceKind::Operation, Action::List, p);
    proof {
        reveal_with_fuel(builder::first_missing, 10);
        reveal_with_fuel(builder::first_empty, 10);
        let toks = registry::spec_entry(ResourceKind::Operation, Action::List)->0;
        assert(builder::uses_src_scope(toks)) by {
            assert(builder::token_uses_src(toks[2]));
        }
        if valid_remote_name(remote@) {
            assert(builder::spec_argv(toks, gp) =~= seq!["operation"@, "list"@, remote@ + ":"@]);
            assert(builder::spec_build(ResourceKind::Operation, Action::List, gp) matches Ok(c) && c.binary == Binary::Lxc && c.argv == builder::spec_argv(toks, gp));
        }
        if !valid_remote_name(remote@) {
            assert(builder::spec_build(ResourceKind::Operation, Action::List, gp) == Err::<CommandSpecV, BuildError>(BuildError::InvalidAddress(AddressError::InvalidRemoteName)));
        }
    }
    r
}

/// Cancel a local background operation:
/// `lxc operation delete local:<operation>`.
pub fn del_local_background_operation(operation: &str) -> (r: Result<CommandSpec, BuildError>)
    ensures
        (operation@.len() > 0) ==> (r matches Ok(c) && c@.binary == Binary::Lxc && c@.argv =~= seq!["operation"@, "delete"@, "local:"@ + operation@]),
        (operation@.len() == 0) ==> r == Err::<CommandSpec, BuildError>(BuildError::InvalidAddress(AddressError::EmptyResource)),
{
    let mut p = ParamSet::empty();
    p.name = Some(String::from_str(operation));
    let ghost gp = p;
    let r = builder::build(ResourceKind::Operation, Action::Delete, p);
    proof {
        reveal_with_fuel(builder::first_missing, 10);
        reveal_with_fuel(builder::first_empty, 10);
        let toks = registry::spec_entry(ResourceKind::Operation, Action::Delete)->0;
        assert(builder::requires_param(toks, ParamName::Name)) by {
            assert(builder::token_requires(toks[2], ParamName::Name));
        }
        if operation@.len() > 0 {
            assert(builder::spec_argv(toks, gp) =~= seq!["operation"@, "delete"@, "local:"@ + operation@]);
            assert(builder::spec_build(ResourceKind::Operation, Action::Delete, gp) matches Ok(c) && c.binary == Binary::Lxc && c.argv == builder::spec_argv(toks, gp));
        }
        if operation@.len() == 0 {
            assert(builder::spec_build(ResourceKind::Operation, Action::Delete, gp) == Err::<CommandSpecV, BuildError>(BuildError::InvalidAddress(AddressError::EmptyResource)));
        }
    }
    r
}

/// Cancel a remote background operation:
/// `lxc operation delete <remote>:<operation>`.
pub fn del_remote_background_operation(remote: &str, operation: &str) -> (r: Result<CommandSpec, BuildError>)
    ensures
        (valid_remote_name(remote@) && operation@.len() > 0) ==> (r matches Ok(c) && c@.binary == Binary::Lxc && c@.argv =~= seq!["operation"@, "delete"@, remote@ + ":"@ + operation@]),
        (!valid_remote_name(remote@)) ==> r == Err::<CommandSpec, BuildError>(BuildError::InvalidAddress(AddressError::InvalidRemoteName)),
        (valid_remote_name(remote@) && operation@.len() == 0) ==> r == Err::<CommandSpec, BuildError>(BuildError::InvalidAddress(AddressError::EmptyResource)),
{
    let mut p = ParamSet::empty();
    p.name = Some(String::from_str(operation));
    p.remote = Some(String::from_str(remote));
    let ghost gp = p;
    let r = builder::build(ResourceKind::Operation, Action::Delete, p);
    proof {
        reveal_with_fuel(builder::first_missing, 10);
        reveal_with_fuel(builder::first_empty, 10);
        let toks = registry::spec_entry(ResourceKind::Operation, Action::Delete)->0;
        assert(builder::requires_param(toks, ParamName::Name)) by {
            assert(builder::token_requires(toks[2], ParamName::Name));
        }
        assert(builder::uses_src_scope(toks)) by {
            assert(builder::token_uses_src(toks[2]));
        }
        if valid_remote_name(remote@) && operation@.len() > 0 {
            assert(builder::spec_argv(toks, gp) =~= seq!["operation"@, "delete"@, remote@ + ":"@ + operation@]);
            assert(builder::spec_build(ResourceKind::Operation, Action::Delete, gp) matches Ok(c) && c.binary == Binary::Lxc && c.argv == builder::spec_argv(toks, gp));
        }
        if !valid_remote_name(remote@) {
            assert(builder::spec_build(ResourceKind::Operation, Action::Delete, gp) == Err::<CommandSpecV, BuildError>(BuildError::InvalidAddress(AddressError::InvalidRemoteName)));
        }
        if valid_remote_name(remote@) && operation@.len() == 0 {
            assert(builder::spec_build(ResourceKind::Operation, Action::Delete, gp) == Err::<CommandSpecV, BuildError>(BuildError::InvalidAddress(AddressError::EmptyResource)));
        }
    }
    r
}

/// Show a local background operation:
/// `lxc operation show local:<operation>`.
pub fn get_local_background_operation_details(operation: &str) -> (r: Result<CommandSpec, BuildError>)
    ensures
        (operation@.len() > 0) ==> (r matches Ok(c) && c@.binary == Binary::Lxc && c@.argv =~= seq!["operation"@, "show"@, "local:"@ + operation@]),
        (operation@.len() == 0) ==> r == Err::<CommandSpec, BuildError>(BuildError::InvalidAddress(AddressError::EmptyResource)),
{
    let mut p = ParamSet::empty();
    p.name = Some(String::from_str(operation));
    let ghost gp = p;
    let r = builder::build(ResourceKind::Operation, Action::Show, p);
    proof {
        reveal_with_fuel(builder::first_missing, 10);
        reveal_with_fuel(builder::first_empty, 10);
        let toks = registry::spec_entry(ResourceKind::Operation, Action::Show)->0;
        assert(builder::requires_param(toks, ParamName::Name)) by {
            assert(builder::token_requires(toks[2], ParamName::Name));
        }
        if operation@.len() > 0 {
            assert(builder::spec_argv(toks, gp) =~= seq!["operation"@, "show"@, "local:"@ + operation@]);
            assert(builder::spec_build(ResourceKind::Operation, Action::Show, gp) matches Ok(c) && c.binary == Binary::Lxc && c.argv == builder::spec_argv(toks, gp));
        }
        if operation@.len() == 0 {
            assert(builder::spec_build(ResourceKind::Operation, Action::Show, gp) == Err::<CommandSpecV, BuildError>(BuildError::InvalidAddress(AddressError::EmptyResource)));
        }
    }
    r
}

/// Show a remote background operation:
/// `lxc operation show <remote>:<operation>`.
pub fn get_remote_background_operation_details(remote: &str, operation: &str) -> (r: Result<CommandSpec, BuildError>)
    ensures
        (valid_remote_name(remote@) && operation@.len() > 0) ==> (r matches Ok(c) && c@.binary == Binary::Lxc && c@.argv =~= seq!["operation"@, "show"@, remote@ + ":"@ + operation@]),
        (!valid_remote_name(remote@)) ==> r == Err::<CommandSpec, BuildError>(BuildError::InvalidAddress(AddressError::InvalidRemoteName)),
        (valid_remote_name(remote@) && operation@.len() == 0) ==> r == Err::<CommandSpec, BuildError>(BuildError::InvalidAddress(AddressError::EmptyResource)),
{
    let mut p = ParamSet::empty();
    p.name = Some(String::from_str(operation));
    p.remote = Some(String::from_str(remote));
    let ghost gp = p;
    let r = builder::build(ResourceKind::Operation, Action::Show, p);
    proof {
        reveal_with_fuel(builder::first_missing, 10);
        reveal_with_fuel(builder::first_empty, 10);
        let toks = registry::spec_entry(ResourceKind::Operation, Action::Show)->0;
        assert(builder::requires_param(toks, ParamName::Name)) by {
            assert(builder::token_requires(toks[2], ParamName::Name));
        }
        assert(builder::uses_src_scope(toks)) by {
            assert(builder::token_uses_src(toks[2]));
        }
        if valid_remote_name(remote@) && operation@.len() > 0 {
            assert(builder::spec_argv(toks, gp) =~= seq!["operation"@, "show"@, remote@ + ":"@ + operation@]);
            assert(builder::spec_build(ResourceKind::Operation, Action::Show, gp) matches Ok(c) && c.binary == Binary::Lxc && c.argv == builder::spec_argv(toks, gp));
        }
        if !valid_remote_name(remote@) {
            assert(builder::spec_build(ResourceKind::Operation, Action::Show, gp) == Err::<CommandSpecV, BuildError>(BuildError::InvalidAddress(AddressError::InvalidRemoteName)));
        }
        if valid_remote_name(remote@) && operation@.len() == 0 {
            assert(builder::spec_build(ResourceKind::Operation, Action::Show, gp) == Err::<CommandSpecV, BuildError>(BuildError::InvalidAddress(AddressError::EmptyResource)));
        }
    }
    r
}

} // verus!
