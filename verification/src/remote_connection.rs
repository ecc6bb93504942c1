//! Operations on the set of named remotes this client knows.

use crate::builder;
use crate::command::Action;
use crate::command::Binary;
use crate::command::BuildError;
use crate::command::CommandSpec;
use crate::command::ParamName;
use crate::command::ParamSet;
use crate::command::ResourceKind;
use crate::registry;
use vstd::prelude::*;
use vstd::string::StringExecFns;

verus! {

/// Register a remote daemon instance under a name:
/// `lxc remote add <name> <address>`.
pub fn connect_to_remote_registry(name: &str, address: &str) -> (r: Result<CommandSpec, BuildError>)
    ensures
        (r matches Ok(c) && c@.binary == Binary::Lxc && c@.argv =~= seq!["remote"@, "add"@, name@, address@]),
{
    let mut p = ParamSet::empty();
    p.name = Some(String::from_str(name));
    p.endpoint = Some(String::from_str(address));
    let ghost gp = p;
    let r = builder::build(ResourceKind::Remote, Action::Create, p);
    proof {
        reveal_with_fuel(builder::first_missing, 10);
        reveal_with_fuel(builder::first_empty, 10);
        let toks = registry::spec_entry(ResourceKind::Remote, Action::Create)->0;
        assert(builder::requires_param(toks, ParamName::Name)) by {
            assert(builder::token_requires(toks[2], ParamName::Name));
        }
        assert(builder::requires_param(toks, ParamName::Endpoint)) by {
            assert(builder::token_requires(toks[3], ParamName::Endpoint));
        }
        assert(builder::spec_argv(toks, gp) =~= seq!["remote"@, "add"@, name@, address@]);
        assert(builder::spec_build(ResourceKind::Remote, Action::Create, gp) matches Ok(c) && c.binary == Binary::Lxc && c.argv == builder::spec_argv(toks, gp));
    }
    r
}

/// Rename a registered remote: `lxc remote rename <instance> <title>`.
pub fn rename_remote_registry(instance: &str, title: &str) -> (r: Result<CommandSpec, BuildError>)
    ensures
        (r matches Ok(c) && c@.binary == Binary::Lxc && c@.argv =~= seq!["remote"@, "rename"@, instance@, title@]),
{
    let mut p = ParamSet::empty();
    p.name = Some(String::from_str(instance));
    p.new_name = Some(String::from_str(title));
    let ghost gp = p;
    let r = builder::build(ResourceKind::Remote, Action::Rename, p);
    proof {
        reveal_with_fuel(builder::first_missing, 10);
        reveal_with_fuel(builder::first_empty, 10);
        let toks = registry::spec_entry(ResourceKind::Remote, Action::Rename)->0;
        assert(builder::requires_param(toks, ParamName::Name)) by {
            assert(builder::token_requires(toks[2], ParamName::Name));
        }
        assert(builder::requires_param(toks, ParamName::NewName)) by {
            assert(builder::token_requires(toks[3], ParamName::NewName));
        }
        assert(builder::spec_argv(toks, gp) =~= seq!["remote"@, "rename"@, instance@, title@]);
        assert(builder::spec_build(ResourceKind::Remote, Action::Rename, gp) matches Ok(c) && c.binary == Binary::Lxc && c.argv == builder::spec_argv(toks, gp));
    }
    r
}

/// List the registered remotes: `lxc remote list`.
pub fn get_remote_registries() -> (r: Result<CommandSpec, BuildError>)
    ensures
        (r matches Ok(c) && c@.binary == Binary::Lxc && c@.argv =~= seq!["remote"@, "list"@]),
{
    let p = ParamSet::empty();
    let ghost gp = p;
    let r = builder::build(ResourceKind::Remote, Action::List, p);
    proof {
        reveal_with_fuel(builder::first_missing, 10);
        reveal_with_fuel(builder::first_empty, 10);
        let toks = registry::spec_entry(ResourceKind::Remote, Action::List)->0;
        assert(builder::spec_argv(toks, gp) =~= seq!["remote"@, "list"@]);
        assert(builder::spec_build(ResourceKind::Remote, Action::List, gp) matches Ok(c) && c.binary == Binary::Lxc && c.argv == builder::spec_argv(toks, gp));
    }
    r
}

/// Show the default remote: `lxc remote get-default`.
pub fn get_remote_default_registry() -> (r: Result<CommandSpec, BuildError>)
    ensures
        (r matches Ok(c) && c@.binary == Binary::Lxc && c@.argv =~= seq!["remote"@, "get-default"@]),
{
    let p = ParamSet::empty();
    let ghost gp = p;
    let r = builder::build(ResourceKind::Remote, Action::Get, p);
    proof {
        reveal_with_fuel(builder::first_missing, 10);
        reveal_with_fuel(builder::first_empty, 10);
        let toks = registry::spec_entry(ResourceKind::Remote, Action::Get)->0;
        assert(builder::spec_argv(toks, gp) =~= seq!["remote"@, "get-default"@]);
        assert(builder::spec_build(ResourceKind::Remote, Action::Get, gp) matches Ok(c) && c.binary == Binary::Lxc && c.argv == builder::spec_argv(toks, gp));
    }
    r
}

} // verus!
