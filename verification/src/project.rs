//! Project operations: listing, creation, switching and configuration.

use crate::address::AddressError;
use crate::address::valid_remote_name;
use crate::builder;
use crate::command::Action;
use crate::command::Binary;
use crate::command::BuildError;
use crate::command::CommandSpec;
use crate::command::CommandSpecV;
use crate::command::ParamName;
use crate::command::ParamSet;
use crate::command::ResourceKind;
use crate::registry;
use vstd::prelude::*;
use vstd::string::StringExecFns;

verus! {

/// List the local projects: `lxc project list local:`.
pub fn get_local_projects() -> (r: Result<CommandSpec, BuildError>)
    ensures
        (r matches Ok(c) && c@.binary == Binary::Lxc && c@.argv =~= seq!["project"@, "list"@, "local:"@]),
{
    let p = ParamSet::empty();
    let ghost gp = p;
    let r = builder::build(ResourceKind::Project, Action::List, p);
    proof {
        reveal_with_fuel(builder::first_missing, 10);
        reveal_with_fuel(builder::first_empty, 10);
        let toks = registry::spec_entry(ResourceKind::Project, Action::List)->0;
        assert(builder::spec_argv(toks, gp) =~= seq!["project"@, "list"@, "local:"@]);
        assert(builder::spec_build(ResourceKind::Project, Action::List, gp) matches Ok(c) && c.binary == Binary::Lxc && c.argv == builder::spec_argv(toks, gp));
    }
    r
}

/// List the projects of a named remote: `lxc project list <remote>:`.
pub fn get_remote_projects(remote: &str) -> (r: Result<CommandSpec, BuildError>)
    ensures
        (valid_remote_name(remote@)) ==> (r matches Ok(c) && c@.binary == Binary::Lxc && c@.argv =~= seq!["project"@, "list"@, remote@ + ":"@]),
        (!valid_remote_name(remote@)) ==> r == Err::<CommandSpec, BuildError>(BuildError::InvalidAddress(AddressError::InvalidRemoteName)),
{
    let mut p = ParamSet::empty();
    p.remote = Some(String::from_str(remote));
    let ghost gp = p;
    let r = builder::build(ResourceKind::Project, Action::List, p);
    proof {
        reveal_with_fuel(builder::first_missing, 10);
        reveal_with_fuel(builder::first_empty, 10);
        let toks = registry::spec_entry(ResourceKind::Project, Action::List)->0;
        assert(builder::uses_src_scope(toks)) by {
            assert(builder::token_uses_src(toks[2]));
        }
        if valid_remote_name(remote@) {
            assert(builder::spec_argv(toks, gp) =~= seq!["project"@, "list"@, remote@ + ":"@]);
            assert(builder::spec_build(ResourceKind::Project, Action::List, gp) matches Ok(c) && c.binary == Binary::Lxc && c.argv == builder::spec_argv(toks, gp));
        }
        if !valid_remote_name(remote@) {
            assert(builder::spec_build(ResourceKind::Project, Action::List, gp) == Err::<CommandSpecV, BuildError>(BuildError::InvalidAddress(AddressError::InvalidRemoteName)));
        }
    }
    r
}

/// Rename a project: `lxc project rename <old> <new>`.
pub fn rename_project(oldname: &str, newname: &str) -> (r: Result<CommandSpec, BuildError>)
    ensures
        (r matches Ok(c) && c@.binary == Binary::Lxc && c@.argv =~= seq!["project"@, "rename"@, oldname@, newname@]),
{
    let mut p = ParamSet::empty();
    p.name = Some(String::from_str(oldname));
    p.new_name = Some(String::from_str(newname));
    let ghost gp = p;
    let r = builder::build(ResourceKind::Project, Action::Rename, p);
    proof {
        reveal_with_fuel(builder::first_missing, 10);
        reveal_with_fuel(builder::first_empty, 10);
        let toks = registry::spec_entry(ResourceKind::Project, Action::Rename)->0;
        assert(builder::requires_param(toks, ParamName::Name)) by {
            assert(builder::token_requires(toks[2], ParamName::Name));
        }
        assert(builder::requires_param(toks, ParamName::NewName)) by {
            assert(builder::token_requires(toks[3], ParamName::NewName));
        }
        assert(builder::spec_argv(toks, gp) =~= seq!["project"@, "rename"@, oldname@, newname@]);
        assert(builder::spec_build(ResourceKind::Project, Action::Rename, gp) matches Ok(c) && c.binary == Binary::Lxc && c.argv == builder::spec_argv(toks, gp));
    }
    r
}

/// Delete a local project: `lxc project delete local:<project>`.
pub fn delete_local_project(project: &str) -> (r: Result<CommandSpec, BuildError>)
    ensures
        (project@.len() > 0) ==> (r matches Ok(c) && c@.binary == Binary::Lxc && c@.argv =~= seq!["project"@, "delete"@, "local:"@ + project@]),
        (project@.len() == 0) ==> r == Err::<CommandSpec, BuildError>(BuildError::InvalidAddress(AddressError::EmptyResource)),
{
    let mut p = ParamSet::empty();
    p.name = Some(String::from_str(project));
    let ghost gp = p;
    let r = builder::build(ResourceKind::Project, Action::Delete, p);
    proof {
        reveal_with_fuel(builder::first_missing, 10);
        reveal_with_fuel(builder::first_empty, 10);
        let toks = registry::spec_entry(ResourceKind::Project, Action::Delete)->0;
        assert(builder::requires_param(toks, ParamName::Name)) by {
            assert(builder::token_requires(toks[2], ParamName::Name));
        }
        if project@.len() > 0 {
            assert(builder::spec_argv(toks, gp) =~= seq!["project"@, "delete"@, "local:"@ + project@]);
            assert(builder::spec_build(ResourceKind::Project, Action::Delete, gp) matches Ok(c) && c.binary == Binary::Lxc && c.argv == builder::spec_argv(toks, gp));
        }
        if project@.len() == 0 {
            assert(builder::spec_build(ResourceKind::Project, Action::Delete, gp) == Err::<CommandSpecV, BuildError>(BuildError::InvalidAddress(AddressError::EmptyResource)));
        }
    }
    r
}

/// Delete a remote project: `lxc project delete <remote>:<project>`.
pub fn delete_remote_project(remote: &str, project: &str) -> (r: Result<CommandSpec, BuildError>)
    ensures
        (valid_remote_name(remote@) && project@.len() > 0) ==> (r matches Ok(c) && c@.binary == Binary::Lxc && c@.argv =~= seq!["project"@, "delete"@, remote@ + ":"@ + project@]),
        (!valid_remote_name(remote@)) ==> r == Err::<CommandSpec, BuildError>(BuildError::InvalidAddress(AddressError::InvalidRemoteName)),
        (valid_remote_name(remote@) && project@.len() == 0) ==> r == Err::<CommandSpec, BuildError>(BuildError::InvalidAddress(AddressError::EmptyResource)),
{
    let mut p = ParamSet::empty();
    p.name = Some(String::from_str(project));
    p.remote = Some(String::from_str(remote));
    let ghost gp = p;
    let r = builder::build(ResourceKind::Project, Action::Delete, p);
    proof {
        reveal_with_fuel(builder::first_missing, 10);
        reveal_with_fuel(builder::first_empty, 10);
        let toks = registry::spec_entry(ResourceKind::Project, Action::Delete)->0;
        assert(builder::requires_param(toks, ParamName::Name)) by {
            assert(builder::token_requires(toks[2], ParamName::Name));
        }
        assert(builder::uses_src_scope(toks)) by {
            assert(builder::token_uses_src(toks[2]));
        }
        if valid_remote_name(remote@) && project@.len() > 0 {
            assert(builder::spec_argv(toks, gp) =~= seq!["project"@, "delete"@, remote@ + ":"@ + project@]);
            assert(builder::spec_build(ResourceKind::Project, Action::Delete, gp) matches Ok(c) && c.binary == Binary::Lxc && c.argv == builder::spec_argv(toks, gp));
        }
        if !valid_remote_name(remote@) {
            assert(builder::spec_build(ResourceKind::Project, Action::Delete, gp) == Err::<CommandSpecV, BuildError>(BuildError::InvalidAddress(AddressError::InvalidRemoteName)));
        }
        if valid_remote_name(remote@) && project@.len() == 0 {
            assert(builder::spec_build(ResourceKind::Project, Action::Delete, gp) == Err::<CommandSpecV, BuildError>(BuildError::InvalidAddress(AddressError::EmptyResource)));
        }
    }
    r
}

/// Show information about a local project: `lxc project info local:<project>`.
pub fn get_local_project_details(project: &str) -> (r: Result<CommandSpec, BuildError>)
    ensures
        (project@.len() > 0) ==> (r matches Ok(c) && c@.binary == Binary::Lxc && c@.argv =~= seq!["project"@, "info"@, "local:"@ + project@]),
        (project@.len() == 0) ==> r == Err::<CommandSpec, BuildError>(BuildError::InvalidAddress(AddressError::EmptyResource)),
{
    let mut p = ParamSet::empty();
    p.name = Some(String::from_str(project));
    let ghost gp = p;
    let r = builder::build(ResourceKind::Project, Action::Info, p);
    proof {
        reveal_with_fuel(builder::first_missing, 10);
        reveal_with_fuel(builder::first_empty, 10);
        let toks = registry::spec_entry(ResourceKind::Project, Action::Info)->0;
        assert(builder::requires_param(toks, ParamName::Name)) by {
            assert(builder::token_requires(toks[2], ParamName::Name));
        }
        if project@.len() > 0 {
            assert(builder::spec_argv(toks, gp) =~= seq!["project"@, "info"@, "local:"@ + project@]);
            assert(builder::spec_build(ResourceKind::Project, Action::Info, gp) matches Ok(c) && c.binary == Binary::Lxc && c.argv == builder::spec_argv(toks, gp));
        }
        if project@.len() == 0 {
            assert(builder::spec_build(ResourceKind::Project, Action::Info, gp) == Err::<CommandSpecV, BuildError>(BuildError::InvalidAddress(AddressError::EmptyResource)));
        }
    }
    r
}

/// Show information about a remote project:
/// `lxc project info <remote>:<project>`.
pub fn get_remote_project_details(remote: &str, project: &str) -> (r: Result<CommandSpec, BuildError>)
    ensures
        (valid_remote_name(remote@) && project@.len() > 0) ==> (r matches Ok(c) && c@.binary == Binary::Lxc && c@.argv =~= seq!["project"@, "info"@, remote@ + ":"@ + project@]),
        (!valid_remote_name(remote@)) ==> r == Err::<CommandSpec, BuildError>(BuildError::InvalidAddress(AddressError::InvalidRemoteName)),
        (valid_remote_name(remote@) && project@.len() == 0) ==> r == Err::<CommandSpec, BuildError>(BuildError::InvalidAddress(AddressError::EmptyResource)),
{
    let mut p = ParamSet::empty();
    p.name = Some(String::from_str(project));
    p.remote = Some(String::from_str(remote));
    let ghost gp = p;
    let r = builder::build(ResourceKind::Project, Action::Info, p);
    proof {
        reveal_with_fuel(builder::first_missing, 10);
        reveal_with_fuel(builder::first_empty, 10);
        let toks = registry::spec_entry(ResourceKind::Project, Action::Info)->0;
        assert(builder::requires_param(toks, ParamName::Name)) by {
            assert(builder::token_requires(toks[2], ParamName::Name));
        }
        assert(builder::uses_src_scope(toks)) by {
            assert(builder::token_uses_src(toks[2]));
        }
        if valid_remote_name(remote@) && project@.len() > 0 {
            assert(builder::spec_argv(toks, gp) =~= seq!["project"@, "info"@, remote@ + ":"@ + project@]);
            assert(builder::spec_build(ResourceKind::Project, Action::Info, gp) matches Ok(c) && c.binary == Binary::Lxc && c.argv == builder::spec_argv(toks, gp));
        }
        if !valid_remote_name(remote@) {
            assert(builder::spec_build(ResourceKind::Project, Action::Info, gp) == Err::<CommandSpecV, BuildError>(BuildError::InvalidAddress(AddressError::InvalidRemoteName)));
        }
        if valid_remote_name(remote@) && project@.len() == 0 {
            assert(builder::spec_build(ResourceKind::Project, Action::Info, gp) == Err::<CommandSpecV, BuildError>(BuildError::InvalidAddress(AddressError::EmptyResource)));
        }
    }
    r
}

/// Show the options of a local project: `lxc project show local:<project>`.
pub fn get_local_project_options(project: &str) -> (r: Result<CommandSpec, BuildError>)
    ensures
        (project@.len() > 0) ==> (r matches Ok(c) && c@.binary == Binary::Lxc && c@.argv =~= seq!["project"@, "show"@, "local:"@ + project@]),
        (project@.len() == 0) ==> r == Err::<CommandSpec, BuildError>(BuildError::InvalidAddress(AddressError::EmptyResource)),
{
    let mut p = ParamSet::empty();
    p.name = Some(String::from_str(project));
    let ghost gp = p;
    let r = builder::build(ResourceKind::Project, Action::Show, p);
    proof {
        reveal_with_fuel(builder::first_missing, 10);
        reveal_with_fuel(builder::first_empty, 10);
        let toks = registry::spec_entry(ResourceKind::Project, Action::Show)->0;
        assert(builder::requires_param(toks, ParamName::Name)) by {
            assert(builder::token_requires(toks[2], ParamName::Name));
        }
        if project@.len() > 0 {
            assert(builder::spec_argv(toks, gp) =~= seq!["project"@, "show"@, "local:"@ + project@]);
            assert(builder::spec_build(ResourceKind::Project, Action::Show, gp) matches Ok(c) && c.binary == Binary::Lxc && c.argv == builder::spec_argv(toks, gp));
        }
        if project@.len() == 0 {
            assert(builder::spec_build(ResourceKind::Project, Action::Show, gp) == Err::<CommandSpecV, BuildError>(BuildError::InvalidAddress(AddressError::EmptyResource)));
        }
    }
    r
}

/// Show the options of a remote project:
/// `lxc project show <remote>:<project>`.
pub fn get_remote_project_options(remote: &str, project: &str) -> (r: Result<CommandSpec, BuildError>)
    ensures
        (valid_remote_name(remote@) && project@.len() > 0) ==> (r matches Ok(c) && c@.binary == Binary::Lxc && c@.argv =~= seq!["project"@, "show"@, remote@ + ":"@ + project@]),
        (!valid_remote_name(remote@)) ==> r == Err::<CommandSpec, BuildError>(BuildError::InvalidAddress(AddressError::InvalidRemoteName)),
        (valid_remote_name(remote@) && project@.len() == 0) ==> r == Err::<CommandSpec, BuildError>(BuildError::InvalidAddress(AddressError::EmptyResource)),
{
    let mut p = ParamSet::empty();
    p.name = Some(String::from_str(project));
    p.remote = Some(String::from_str(remote));
    let ghost gp = p;
    let r = builder::build(ResourceKind::Project, Action::Show, p);
    proof {
        reveal_with_fuel(builder::first_missing, 10);
        reveal_with_fuel(builder::first_empty, 10);
        let toks = registry::spec_entry(ResourceKind::Project, Action::Show)->0;
        assert(builder::requires_param(toks, ParamName::Name)) by {
            assert(builder::token_requires(toks[2], ParamName::Name));
        }
        assert(builder::uses_src_scope(toks)) by {
            assert(builder::token_uses_src(toks[2]));
        }
        if valid_remote_name(remote@) && project@.len() > 0 {
            assert(builder::spec_argv(toks, gp) =~= seq!["project"@, "show"@, remote@ + ":"@ + project@]);
            assert(builder::spec_build(ResourceKind::Project, Action::Show, gp) matches Ok(c) && c.binary == Binary::Lxc && c.argv == builder::spec_argv(toks, gp));
        }
        if !valid_remote_name(remote@) {
            assert(builder::spec_build(ResourceKind::Project, Action::Show, gp) == Err::<CommandSpecV, BuildError>(BuildError::InvalidAddress(AddressError::InvalidRemoteName)));
        }
        if valid_remote_name(remote@) && project@.len() == 0 {
            assert(builder::spec_build(ResourceKind::Project, Action::Show, gp) == Err::<CommandSpecV, BuildError>(BuildError::InvalidAddress(AddressError::EmptyResource)));
        }
    }
    r
}

/// Switch to another local project: `lxc project switch local:<project>`.
pub fn switch_local_current_project(another_project: &str) -> (r: Result<CommandSpec, BuildError>)
    ensures
        (another_project@.len() > 0) ==> (r matches Ok(c) && c@.binary == Binary::Lxc && c@.argv =~= seq!["project"@, "switch"@, "local:"@ + another_project@]),
        (another_project@.len() == 0) ==> r == Err::<CommandSpec, BuildError>(BuildError::InvalidAddress(AddressError::EmptyResource)),
{
    let mut p = ParamSet::empty();
    p.name = Some(String::from_str(another_project));
    let ghost gp = p;
    let r = builder::build(ResourceKind::Project, Action::Switch, p);
    proof {
        reveal_with_fuel(builder::first_missing, 10);
        reveal_with_fuel(builder::first_empty, 10);
        let toks = registry::spec_entry(ResourceKind::Project, Action::Switch)->0;
        assert(builder::requires_param(toks, ParamName::Name)) by {
            assert(builder::token_requires(toks[2], ParamName::Name));
        }
        if another_project@.len() > 0 {
            assert(builder::spec_argv(toks, gp) =~= seq!["project"@, "switch"@, "local:"@ + another_project@]);
            assert(builder::spec_build(ResourceKind::Project, Action::Switch, gp) matches Ok(c) && c.binary == Binary::Lxc && c.argv == builder::spec_argv(toks, gp));
        }
        if another_project@.len() == 0 {
            assert(builder::spec_build(ResourceKind::Project, Action::Switch, gp) == Err::<CommandSpecV, BuildError>(BuildError::InvalidAddress(AddressError::EmptyResource)));
        }
    }
    r
}

/// Switch to another project of a named remote:
/// `lxc project switch <remote>:<project>`.
pub fn switch_remote_current_project(remote: &str, another_project: &str) -> (r: Result<CommandSpec, BuildError>)
    ensures
        (valid_remote_name(remote@) && another_project@.len() > 0) ==> (r matches Ok(c) && c@.binary == Binary::Lxc && c@.argv =~= seq!["project"@, "switch"@, remote@ + ":"@ + another_project@]),
        (!valid_remote_name(remote@)) ==> r == Err::<CommandSpec, BuildError>(BuildError::InvalidAddress(AddressError::InvalidRemoteName)),
        (valid_remote_name(remote@) && another_project@.len() == 0) ==> r == Err::<CommandSpec, BuildError>(BuildError::InvalidAddress(AddressError::EmptyResource)),
{
    let mut p = ParamSet::empty();
    p.name = Some(String::from_str(another_project));
    p.remote = Some(String::from_str(remote));
    let ghost gp = p;
    let r = builder::build(ResourceKind::Project, Action::Switch, p);
    proof {
        reveal_with_fuel(builder::first_missing, 10);
        reveal_with_fuel(builder::first_empty, 10);
        let toks = registry::spec_entry(ResourceKind::Project, Action::Switch)->0;
        assert(builder::requires_param(toks, ParamName::Name)) by {
            assert(builder::token_requires(toks[2], ParamName::Name));
        }
        assert(builder::uses_src_scope(toks)) by {
            assert(builder::token_uses_src(toks[2]));
        }
        if valid_remote_name(remote@) && another_project@.len() > 0 {
            assert(builder::spec_argv(toks, gp) =~= seq!["project"@, "switch"@, remote@ + ":"@ + another_project@]);
            assert(builder::spec_build(ResourceKind::Project, Action::Switch, gp) matches Ok(c) && c.binary == Binary::Lxc && c.argv == builder::spec_argv(toks, gp));
        }
        if !valid_remote_name(remote@) {
            assert(builder::spec_build(ResourceKind::Project, Action::Switch, gp) == Err::<CommandSpecV, BuildError>(BuildError::InvalidAddress(AddressError::InvalidRemoteName)));
        }
        if valid_remote_name(remote@) && another_project@.len() == 0 {
            assert(builder::spec_build(ResourceKind::Project, Action::Switch, gp) == Err::<CommandSpecV, BuildError>(BuildError::InvalidAddress(AddressError::EmptyResource)));
        }
    }
    r
}

/// Create a local project: `lxc project create local:<title>`.
pub fn create_local_project(title: &str) -> (r: Result<CommandSpec, BuildError>)
    ensures
        (title@.len() > 0) ==> (r matches Ok(c) && c@.binary == Binary::Lxc && c@.argv =~= seq!["project"@, "create"@, "local:"@ + title@]),
        (title@.len() == 0) ==> r == Err::<CommandSpec, BuildError>(BuildError::InvalidAddress(AddressError::EmptyResource)),
{
    let mut p = ParamSet::empty();
    p.name = Some(String::from_str(title));
    let ghost gp = p;
    let r = builder::build(ResourceKind::Project, Action::Create, p);
    proof {
        reveal_with_fuel(builder::first_missing, 10);
        reveal_with_fuel(builder::first_empty, 10);
        let toks = registry::spec_entry(ResourceKind::Project, Action::Create)->0;
        assert(builder::requires_param(toks, ParamName::Name)) by {
            assert(builder::token_requires(toks[2], ParamName::Name));
        }
        if title@.len() > 0 {
            assert(builder::spec_argv(toks, gp) =~= seq!["project"@, "create"@, "local:"@ + title@]);
            assert(builder::spec_build(ResourceKind::Project, Action::Create, gp) matches Ok(c) && c.binary == Binary::Lxc && c.argv == builder::spec_argv(toks, gp));
        }
        if title@.len() == 0 {
            assert(builder::spec_build(ResourceKind::Project, Action::Create, gp) == Err::<CommandSpecV, BuildError>(BuildError::InvalidAddress(AddressError::EmptyResource)));
        }
    }
    r
}

/// Create a remote project: `lxc project create <remote>:<title>`.
pub fn create_remote_project(remote: &str, title: &str) -> (r: Result<CommandSpec, BuildError>)
    ensures
        (valid_remote_name(remote@) && title@.len() > 0) ==> (r matches Ok(c) && c@.binary == Binary::Lxc && c@.argv =~= seq!["project"@, "create"@, remote@ + ":"@ + title@]),
        (!valid_remote_name(remote@)) ==> r == Err::<CommandSpec, BuildError>(BuildError::InvalidAddress(AddressError::InvalidRemoteName)),
        (valid_remote_name(remote@) && title@.len() == 0) ==> r == Err::<CommandSpec, BuildError>(BuildError::InvalidAddress(AddressError::EmptyResource)),
{
    let mut p = ParamSet::empty();
    p.name = Some(String::from_str(title));
    p.remote = Some(String::from_str(remote));
    let ghost gp = p;
    let r = builder::build(ResourceKind::Project, Action::Create, p);
    proof {
        reveal_with_fuel(builder::first_missing, 10);
        reveal_with_fuel(builder::first_empty, 10);
        let toks = registry::spec_entry(ResourceKind::Project, Action::Create)->0;
        assert(builder::requires_param(toks, ParamName::Name)) by {
            assert(builder::token_requires(toks[2], ParamName::Name));
        }
        assert(builder::uses_src_scope(toks)) by {
            assert(builder::token_uses_src(toks[2]));
        }
        if valid_remote_name(remote@) && title@.len() > 0 {
            assert(builder::spec_argv(toks, gp) =~= seq!["project"@, "create"@, remote@ + ":"@ + title@]);
            assert(builder::spec_build(ResourceKind::Project, Action::Create, gp) matches Ok(c) && c.binary == Binary::Lxc && c.argv == builder::spec_argv(toks, gp));
        }
        if !valid_remote_name(remote@) {
            assert(builder::spec_build(ResourceKind::Project, Action::Create, gp) == Err::<CommandSpecV, BuildError>(BuildError::InvalidAddress(AddressError::InvalidRemoteName)));
        }
        if valid_remote_name(remote@) && title@.len() == 0 {
            assert(builder::spec_build(ResourceKind::Project, Action::Create, gp) == Err::<CommandSpecV, BuildError>(BuildError::InvalidAddress(AddressError::EmptyResource)));
        }
    }
    r
}

/// Set a configuration property of a local project:
/// `lxc project set local:<project> <key> <value>`.
pub fn set_local_project_config_property(project: &str, key: &str, value: &str) -> (r: Result<CommandSpec, BuildError>)
    ensures
        (project@.len() > 0) ==> (r matches Ok(c) && c@.binary == Binary::Lxc && c@.argv =~= seq!["project"@, "set"@, "local:"@ + project@, key@, value@]),
        (project@.len() == 0) ==> r == Err::<CommandSpec, BuildError>(BuildError::InvalidAddress(AddressError::EmptyResource)),
{
    let mut p = ParamSet::empty();
    p.name = Some(String::from_str(project));
    p.key = Some(String::from_str(key));
    p.value = Some(String::from_str(value));
    let ghost gp = p;
    let r = builder::build(ResourceKind::Project, Action::SetValue, p);
    proof {
        reveal_with_fuel(builder::first_missing, 10);
        reveal_with_fuel(builder::first_empty, 10);
        let toks = registry::spec_entry(ResourceKind::Project, Action::SetValue)->0;
        assert(builder::requires_param(toks, ParamName::Name)) by {
            assert(builder::token_requires(toks[2], ParamName::Name));
        }
        assert(builder::requires_param(toks, ParamName::Key)) by {
            assert(builder::token_requires(toks[3], ParamName::Key));
        }
        assert(builder::requires_param(toks, ParamName::Value)) by {
            assert(builder::token_requires(toks[4], ParamName::Value));
        }
        if project@.len() > 0 {
            assert(builder::spec_argv(toks, gp) =~= seq!["project"@, "set"@, "local:"@ + project@, key@, value@]);
            assert(builder::spec_build(ResourceKind::Project, Action::SetValue, gp) matches Ok(c) && c.binary == Binary::Lxc && c.argv == builder::spec_argv(toks, gp));
        }
        if project@.len() == 0 {
            assert(builder::spec_build(ResourceKind::Project, Action::SetValue, gp) == Err::<CommandSpecV, BuildError>(BuildError::InvalidAddress(AddressError::EmptyResource)));
        }
    }
    r
}

/// Set a configuration property of a remote project:
/// `lxc project set <remote>:<project> <key> <value>`.
pub fn set_remote_project_config_property(remote: &str, project: &str, key: &str, value: &str) -> (r: Result<CommandSpec, BuildError>)
    ensures
        (valid_remote_name(remote@) && project@.len() > 0) ==> (r matches Ok(c) && c@.binary == Binary::Lxc && c@.argv =~= seq!["project"@, "set"@, remote@ + ":"@ + project@, key@, value@]),
        (!valid_remote_name(remote@)) ==> r == Err::<CommandSpec, BuildError>(BuildError::InvalidAddress(AddressError::InvalidRemoteName)),
        (valid_remote_name(remote@) && project@.len() == 0) ==> r == Err::<CommandSpec, BuildError>(BuildError::InvalidAddress(AddressError::EmptyResource)),
{
    let mut p = ParamSet::empty();
    p.name = Some(String::from_str(project));
    p.key = Some(String::from_str(key));
    p.value = Some(String::from_str(value));
    p.remote = Some(String::from_str(remote));
    let ghost gp = p;
    let r = builder::build(ResourceKind::Project, Action::SetValue, p);
    proof {
        reveal_with_fuel(builder::first_missing, 10);
        reveal_with_fuel(builder::first_empty, 10);
        let toks = registry::spec_entry(ResourceKind::Project, Action::SetValue)->0;
        assert(builder::requires_param(toks, ParamName::Name)) by {
            assert(builder::token_requires(toks[2], ParamName::Name));
        }
        assert(builder::requires_param(toks, ParamName::Key)) by {
            assert(builder::token_requires(toks[3], ParamName::Key));
        }
        assert(builder::requires_param(toks, ParamName::Value)) by {
            assert(builder::token_requires(toks[4], ParamName::Value));
        }
        assert(builder::uses_src_scope(toks)) by {
            assert(builder::token_uses_src(toks[2]));
        }
        if valid_remote_name(remote@) && project@.len() > 0 {
            assert(builder::spec_argv(toks, gp) =~= seq!["project"@, "set"@, remote@ + ":"@ + project@, key@, value@]);
            assert(builder::spec_build(ResourceKind::Project, Action::SetValue, gp) matches Ok(c) && c.binary == Binary::Lxc && c.argv == builder::spec_argv(toks, gp));
        }
        if !valid_remote_name(remote@) {
            assert(builder::spec_build(ResourceKind::Project, Action::SetValue, gp) == Err::<CommandSpecV, BuildError>(BuildError::InvalidAddress(AddressError::InvalidRemoteName)));
        }
        if valid_remote_name(remote@) && project@.len() == 0 {
            assert(builder::spec_build(ResourceKind::Project, Action::SetValue, gp) == Err::<CommandSpecV, BuildError>(BuildError::InvalidAddress(AddressError::EmptyResource)));
        }
    }
    r
}

/// Unset a configuration property of a local project:
/// `lxc project unset local:<project> <key>`.
pub fn unset_local_project_config_property(project: &str, key: &str) -> (r: Result<CommandSpec, BuildError>)
    ensures
        (project@.len() > 0) ==> (r matches Ok(c) && c@.binary == Binary::Lxc && c@.argv =~= seq!["project"@, "unset"@, "local:"@ + project@, key@]),
        (project@.len() == 0) ==> r == Err::<CommandSpec, BuildError>(BuildError::InvalidAddress(AddressError::EmptyResource)),
{
    let mut p = ParamSet::empty();
    p.name = Some(String::from_str(project));
    p.key = Some(String::from_str(key));
    let ghost gp = p;
    let r = builder::build(ResourceKind::Project, Action::Unset, p);
    proof {
        reveal_with_fuel(builder::first_missing, 10);
        reveal_with_fuel(builder::first_empty, 10);
        let toks = registry::spec_entry(ResourceKind::Project, Action::Unset)->0;
        assert(builder::requires_param(toks, ParamName::Name)) by {
            assert(builder::token_requires(toks[2], ParamName::Name));
        }
        assert(builder::requires_param(toks, ParamName::Key)) by {
            assert(builder::token_requires(toks[3], ParamName::Key));
        }
        if project@.len() > 0 {
            assert(builder::spec_argv(toks, gp) =~= seq!["project"@, "unset"@, "local:"@ + project@, key@]);
            assert(builder::spec_build(ResourceKind::Project, Action::Unset, gp) matches Ok(c) && c.binary == Binary::Lxc && c.argv == builder::spec_argv(toks, gp));
        }
        if project@.len() == 0 {
            assert(builder::spec_build(ResourceKind::Project, Action::Unset, gp) == Err::<CommandSpecV, BuildError>(BuildError::InvalidAddress(AddressError::EmptyResource)));
        }
    }
    r
}

/// Unset a configuration property of a remote project:
/// `lxc project unset <remote>:<project> <key>`.
pub fn unset_remote_project_config_property(remote: &str, project: &str, key: &str) -> (r: Result<CommandSpec, BuildError>)
    ensures
        (valid_remote_name(remote@) && project@.len() > 0) ==> (r matches Ok(c) && c@.binary == Binary::Lxc && c@.argv =~= seq!["project"@, "unset"@, remote@ + ":"@ + project@, key@]),
        (!valid_remote_name(remote@)) ==> r == Err::<CommandSpec, BuildError>(BuildError::InvalidAddress(AddressError::InvalidRemoteName)),
        (valid_remote_name(remote@) && project@.len() == 0) ==> r == Err::<CommandSpec, BuildError>(BuildError::InvalidAddress(AddressError::EmptyResource)),
{
    let mut p = ParamSet::empty();
    p.name = Some(String::from_str(project));
    p.key = Some(String::from_str(key));
    p.remote = Some(String::from_str(remote));
    let ghost gp = p;
    let r = builder::build(ResourceKind::Project, Action::Unset, p);
    proof {
        reveal_with_fuel(builder::first_missing, 10);
        reveal_with_fuel(builder::first_empty, 10);
        let toks = registry::spec_entry(ResourceKind::Project, Action::Unset)->0;
        assert(builder::requires_param(toks, ParamName::Name)) by {
            assert(builder::token_requires(toks[2], ParamName::Name));
        }
        assert(builder::requires_param(toks, ParamName::Key)) by {
            assert(builder::token_requires(toks[3], ParamName::Key));
        }
        assert(builder::uses_src_scope(toks)) by {
            assert(builder::token_uses_src(toks[2]));
        }
        if valid_remote_name(remote@) && project@.len() > 0 {
            assert(builder::spec_argv(toks, gp) =~= seq!["project"@, "unset"@, remote@ + ":"@ + project@, key@]);
            assert(builder::spec_build(ResourceKind::Project, Action::Unset, gp) matches Ok(c) && c.binary == Binary::Lxc && c.argv == builder::spec_argv(toks, gp));
        }
        if !valid_remote_name(remote@) {
            assert(builder::spec_build(ResourceKind::Project, Action::Unset, gp) == Err::<CommandSpecV, BuildError>(BuildError::InvalidAddress(AddressError::InvalidRemoteName)));
        }
        if valid_remote_name(remote@) && project@.len() == 0 {
            assert(builder::spec_build(ResourceKind::Project, Action::Unset, gp) == Err::<CommandSpecV, BuildError>(BuildError::InvalidAddress(AddressError::EmptyResource)));
        }
    }
    r
}

} // verus!
