//! Configuration-tree operations: global keys, trusted clients,
//! templates, metadata and devices.

use crate::builder;
use crate::command::Action;
use crate::command::Binary;
use crate::command::BuildError;
use crate::command::CommandSpec;
use crate::command::ParamName;
use crate::command::ParamSet;
use crate::command::ResourceKind;
use crate::registry;
use vstd::prelude::*;
use vstd::string::StringExecFns;

verus! {

/// Set a configuration property: `lxc config set <key> <value>`.
pub fn set_config_property(key: &str, value: &str) -> (r: Result<CommandSpec, BuildError>)
    ensures
        (r matches Ok(c) && c@.binary == Binary::Lxc && c@.argv =~= seq!["config"@, "set"@, key@, value@]),
{
    let mut p = ParamSet::empty();
    p.key = Some(String::from_str(key));
    p.value = Some(String::from_str(value));
    let ghost gp = p;
    let r = builder::build(ResourceKind::ConfigKey, Action::SetValue, p);
    proof {
        reveal_with_fuel(builder::first_missing, 10);
        reveal_with_fuel(builder::first_empty, 10);
        let toks = registry::spec_entry(ResourceKind::ConfigKey, Action::SetValue)->0;
        assert(builder::requires_param(toks, ParamName::Key)) by {
            assert(builder::token_requires(toks[2], ParamName::Key));
        }
        assert(builder::requires_param(toks, ParamName::Value)) by {
            assert(builder::token_requires(toks[3], ParamName::Value));
        }
        assert(builder::spec_argv(toks, gp) =~= seq!["config"@, "set"@, key@, value@]);
        assert(builder::spec_build(ResourceKind::ConfigKey, Action::SetValue, gp) matches Ok(c) && c.binary == Binary::Lxc && c.argv == builder::spec_argv(toks, gp));
    }
    r
}

/// Read a configuration key: `lxc config get <key>`.
pub fn get_config_key(key: &str) -> (r: Result<CommandSpec, BuildError>)
    ensures
        (r matches Ok(c) && c@.binary == Binary::Lxc && c@.argv =~= seq!["config"@, "get"@, key@]),
{
    let mut p = ParamSet::empty();
    p.key = Some(String::from_str(key));
    let ghost gp = p;
    let r = builder::build(ResourceKind::ConfigKey, Action::Get, p);
    proof {
        reveal_with_fuel(builder::first_missing, 10);
        reveal_with_fuel(builder::first_empty, 10);
        let toks = registry::spec_entry(ResourceKind::ConfigKey, Action::Get)->0;
        assert(builder::requires_param(toks, ParamName::Key)) by {
            assert(builder::token_requires(toks[2], ParamName::Key));
        }
        assert(builder::spec_argv(toks, gp) =~= seq!["config"@, "get"@, key@]);
        assert(builder::spec_build(ResourceKind::ConfigKey, Action::Get, gp) matches Ok(c) && c.binary == Binary::Lxc && c.argv == builder::spec_argv(toks, gp));
    }
    r
}

/// Unset a configuration property: `lxc config unset <key>`.
pub fn unset_config_property(key: &str) -> (r: Result<CommandSpec, BuildError>)
    ensures
        (r matches Ok(c) && c@.binary == Binary::Lxc && c@.argv =~= seq!["config"@, "unset"@, key@]),
{
    let mut p = ParamSet::empty();
    p.key = Some(String::from_str(key));
    let ghost gp = p;
    let r = builder::build(ResourceKind::ConfigKey, Action::Unset, p);
    proof {
        reveal_with_fuel(builder::first_missing, 10);
        reveal_with_fuel(builder::first_empty, 10);
        let toks = registry::spec_entry(ResourceKind::ConfigKey, Action::Unset)->0;
        assert(builder::requires_param(toks, ParamName::Key)) by {
            assert(builder::token_requires(toks[2], ParamName::Key));
        }
        assert(builder::spec_argv(toks, gp) =~= seq!["config"@, "unset"@, key@]);
        assert(builder::spec_build(ResourceKind::ConfigKey, Action::Unset, gp) matches Ok(c) && c.binary == Binary::Lxc && c.argv == builder::spec_argv(toks, gp));
    }
    r
}

/// List the configuration templates of an instance:
/// `lxc config template list <fingerprint>`.
pub fn get_config_templates(fingerprint: &str) -> (r: Result<CommandSpec, BuildError>)
    ensures
        (r matches Ok(c) && c@.binary == Binary::Lxc && c@.argv =~= seq!["config"@, "template"@, "list"@, fingerprint@]),
{
    let mut p = ParamSet::empty();
    p.name = Some(String::from_str(fingerprint));
    let ghost gp = p;
    let r = builder::build(ResourceKind::ConfigTemplate, Action::List, p);
    proof {
        reveal_with_fuel(builder::first_missing, 10);
        reveal_with_fuel(builder::first_empty, 10);
        let toks = registry::spec_entry(ResourceKind::ConfigTemplate, Action::List)->0;
        assert(builder::requires_param(toks, ParamName::Name)) by {
            assert(builder::token_requires(toks[3], ParamName::Name));
        }
        assert(builder::spec_argv(toks, gp) =~= seq!["config"@, "template"@, "list"@, fingerprint@]);
        assert(builder::spec_build(ResourceKind::ConfigTemplate, Action::List, gp) matches Ok(c) && c.binary == Binary::Lxc && c.argv == builder::spec_argv(toks, gp));
    }
    r
}

/// Delete a configuration template:
/// `lxc config template delete <fingerprint> <title>`.
pub fn del_config_template(fingerprint: &str, title: &str) -> (r: Result<CommandSpec, BuildError>)
    ensures
        (r matches Ok(c) && c@.binary == Binary::Lxc && c@.argv =~= seq!["config"@, "template"@, "delete"@, fingerprint@, title@]),
{
    let mut p = ParamSet::empty();
    p.name = Some(String::from_str(fingerprint));
    p.title = Some(String::from_str(title));
    let ghost gp = p;
    let r = builder::build(ResourceKind::ConfigTemplate, Action::Delete, p);
    proof {
        reveal_with_fuel(builder::first_missing, 10);
        reveal_with_fuel(builder::first_empty, 10);
        let toks = registry::spec_entry(ResourceKind::ConfigTemplate, Action::Delete)->0;
        assert(builder::requires_param(toks, ParamName::Name)) by {
            assert(builder::token_requires(toks[3], ParamName::Name));
        }
        assert(builder::requires_param(toks, ParamName::Title)) by {
            assert(builder::token_requires(toks[4], ParamName::Title));
        }
        assert(builder::spec_argv(toks, gp) =~= seq!["config"@, "template"@, "delete"@, fingerprint@, title@]);
        assert(builder::spec_build(ResourceKind::ConfigTemplate, Action::Delete, gp) matches Ok(c) && c.binary == Binary::Lxc && c.argv == builder::spec_argv(toks, gp));
    }
    r
}

/// Show a configuration template:
/// `lxc config template show <fingerprint> <title>`.
pub fn get_config_template_details(fingerprint: &str, title: &str) -> (r: Result<CommandSpec, BuildError>)
    ensures
        (r matches Ok(c) && c@.binary == Binary::Lxc && c@.argv =~= seq!["config"@, "template"@, "show"@, fingerprint@, title@]),
{
    let mut p = ParamSet::empty();
    p.name = Some(String::from_str(fingerprint));
    p.title = Some(String::from_str(title));
    let ghost gp = p;
    let r = builder::build(ResourceKind::ConfigTemplate, Action::Show, p);
    proof {
        reveal_with_fuel(builder::first_missing, 10);
        reveal_with_fuel(builder::first_empty, 10);
        let toks = registry::spec_entry(ResourceKind::ConfigTemplate, Action::Show)->0;
        assert(builder::requires_param(toks, ParamName::Name)) by {
            assert(builder::token_requires(toks[3], ParamName::Name));
        }
        assert(builder::requires_param(toks, ParamName::Title)) by {
            assert(builder::token_requires(toks[4], ParamName::Title));
        }
        assert(builder::spec_argv(toks, gp) =~= seq!["config"@, "template"@, "show"@, fingerprint@, title@]);
        assert(builder::spec_build(ResourceKind::ConfigTemplate, Action::Show, gp) matches Ok(c) && c.binary == Binary::Lxc && c.argv == builder::spec_argv(toks, gp));
    }
    r
}

/// Create a configuration template:
/// `lxc config template create <fingerprint> <title>`.
pub fn create_config_template(fingerprint: &str, title: &str) -> (r: Result<CommandSpec, BuildError>)
    ensures
        (r matches Ok(c) && c@.binary == Binary::Lxc && c@.argv =~= seq!["config"@, "template"@, "create"@, fingerprint@, title@]),
{
    let mut p = ParamSet::empty();
    p.name = Some(String::from_str(fingerprint));
    p.title = Some(String::from_str(title));
    let ghost gp = p;
    let r = builder::build(ResourceKind::ConfigTemplate, Action::Create, p);
    proof {
        reveal_with_fuel(builder::first_missing, 10);
        reveal_with_fuel(builder::first_empty, 10);
        let toks = registry::spec_entry(ResourceKind::ConfigTemplate, Action::Create)->0;
        assert(builder::requires_param(toks, ParamName::Name)) by {
            assert(builder::token_requires(toks[3], ParamName::Name));
        }
        assert(builder::requires_param(toks, ParamName::Title)) by {
            assert(builder::token_requires(toks[4], ParamName::Title));
        }
        assert(builder::spec_argv(toks, gp) =~= seq!["config"@, "template"@, "create"@, fingerprint@, title@]);
        assert(builder::spec_build(ResourceKind::ConfigTemplate, Action::Create, gp) matches Ok(c) && c.binary == Binary::Lxc && c.argv == builder::spec_argv(toks, gp));
    }
    r
}

/// List the devices of an instance: `lxc config device list <fingerprint>`.
pub fn get_config_devices(fingerprint: &str) -> (r: Result<CommandSpec, BuildError>)
    ensures
        (r matches Ok(c) && c@.binary == Binary::Lxc && c@.argv =~= seq!["config"@, "device"@, "list"@, fingerprint@]),
{
    let mut p = ParamSet::empty();
    p.name = Some(String::from_str(fingerprint));
    let ghost gp = p;
    let r = builder::build(ResourceKind::ConfigDevice, Action::List, p);
    proof {
        reveal_with_fuel(builder::first_missing, 10);
        reveal_with_fuel(builder::first_empty, 10);
        let toks = registry::spec_entry(ResourceKind::ConfigDevice, Action::List)->0;
        assert(builder::requires_param(toks, ParamName::Name)) by {
            assert(builder::token_requires(toks[3], ParamName::Name));
        }
        assert(builder::spec_argv(toks, gp) =~= seq!["config"@, "device"@, "list"@, fingerprint@]);
        assert(builder::spec_build(ResourceKind::ConfigDevice, Action::List, gp) matches Ok(c) && c.binary == Binary::Lxc && c.argv == builder::spec_argv(toks, gp));
    }
    r
}

/// Start adding a device, every further argument left to the external
/// tool's prompt: `lxc config device add`.
pub fn add_config_device() -> (r: Result<CommandSpec, BuildError>)
    ensures
        (r matches Ok(c) && c@.binary == Binary::Lxc && c@.argv =~= seq!["config"@, "device"@, "add"@]),
{
    let p = ParamSet::empty();
    let ghost gp = p;
    let r = builder::build(ResourceKind::ConfigDevice, Action::Create, p);
    proof {
        reveal_with_fuel(builder::first_missing, 10);
        reveal_with_fuel(builder::first_empty, 10);
        let toks = registry::spec_entry(ResourceKind::ConfigDevice, Action::Create)->0;
        assert(builder::spec_argv(toks, gp) =~= seq!["config"@, "device"@, "add"@]);
        assert(builder::spec_build(ResourceKind::ConfigDevice, Action::Create, gp) matches Ok(c) && c.binary == Binary::Lxc && c.argv == builder::spec_argv(toks, gp));
    }
    r
}

/// Unset a device property:
/// `lxc config device unset <fingerprint> <device> <key>`.
pub fn unset_config_device(fingerprint: &str, device: &str, key: &str) -> (r: Result<CommandSpec, BuildError>)
    ensures
        (r matches Ok(c) && c@.binary == Binary::Lxc && c@.argv =~= seq!["config"@, "device"@, "unset"@, fingerprint@, device@, key@]),
{
    let mut p = ParamSet::empty();
    p.name = Some(String::from_str(fingerprint));
    p.device = Some(String::from_str(device));
    p.key = Some(String::from_str(key));
    let ghost gp = p;
    let r = builder::build(ResourceKind::ConfigDevice, Action::Unset, p);
    proof {
        reveal_with_fuel(builder::first_missing, 10);
        reveal_with_fuel(builder::first_empty, 10);
        let toks = registry::spec_entry(ResourceKind::ConfigDevice, Action::Unset)->0;
        assert(builder::requires_param(toks, ParamName::Name)) by {
            assert(builder::token_requires(toks[3], ParamName::Name));
        }
        assert(builder::requires_param(toks, ParamName::Device)) by {
            assert(builder::token_requires(toks[4], ParamName::Device));
        }
        assert(builder::requires_param(toks, ParamName::Key)) by {
            assert(builder::token_requires(toks[5], ParamName::Key));
        }
        assert(builder::spec_argv(toks, gp) =~= seq!["config"@, "device"@, "unset"@, fingerprint@, device@, key@]);
        assert(builder::spec_build(ResourceKind::ConfigDevice, Action::Unset, gp) matches Ok(c) && c.binary == Binary::Lxc && c.argv == builder::spec_argv(toks, gp));
    }
    r
}

/// Remove a device: `lxc config device remove <fingerprint> <title>`.
pub fn del_config_device(fingerprint: &str, title: &str) -> (r: Result<CommandSpec, BuildError>)
    ensures
        (r matches Ok(c) && c@.binary == Binary::Lxc && c@.argv =~= seq!["config"@, "device"@, "remove"@, fingerprint@, title@]),
{
    let mut p = ParamSet::empty();
    p.name = Some(String::from_str(fingerprint));
    p.title = Some(String::from_str(title));
    let ghost gp = p;
    let r = builder::build(ResourceKind::ConfigDevice, Action::Delete, p);
    proof {
        reveal_with_fuel(builder::first_missing, 10);
        reveal_with_fuel(builder::first_empty, 10);
        let toks = registry::spec_entry(ResourceKind::ConfigDevice, Action::Delete)->0;
        assert(builder::requires_param(toks, ParamName::Name)) by {
            assert(builder::token_requires(toks[3], ParamName::Name));
        }
        assert(builder::requires_param(toks, ParamName::Title)) by {
            assert(builder::token_requires(toks[4], ParamName::Title));
        }
        assert(builder::spec_argv(toks, gp) =~= seq!["config"@, "device"@, "remove"@, fingerprint@, title@]);
        assert(builder::spec_build(ResourceKind::ConfigDevice, Action::Delete, gp) matches Ok(c) && c.binary == Binary::Lxc && c.argv == builder::spec_argv(toks, gp));
    }
    r
}

/// Show the device configuration of an instance:
/// `lxc config device show <fingerprint>`.
pub fn get_config_device_details(fingerprint: &str) -> (r: Result<CommandSpec, BuildError>)
    ensures
        (r matches Ok(c) && c@.binary == Binary::Lxc && c@.argv =~= seq!["config"@, "device"@, "show"@, fingerprint@]),
{
    let mut p = ParamSet::empty();
    p.name = Some(String::from_str(fingerprint));
    let ghost gp = p;
    let r = builder::build(ResourceKind::ConfigDevice, Action::Show, p);
    proof {
        reveal_with_fuel(builder::first_missing, 10);
        reveal_with_fuel(builder::first_empty, 10);
        let toks = registry::spec_entry(ResourceKind::ConfigDevice, Action::Show)->0;
        assert(builder::requires_param(toks, ParamName::Name)) by {
            assert(builder::token_requires(toks[3], ParamName::Name));
        }
        assert(builder::spec_argv(toks, gp) =~= seq!["config"@, "device"@, "show"@, fingerprint@]);
        assert(builder::spec_build(ResourceKind::ConfigDevice, Action::Show, gp) matches Ok(c) && c.binary == Binary::Lxc && c.argv == builder::spec_argv(toks, gp));
    }
    r
}

/// List the trusted clients: `lxc config trust list`.
pub fn get_trust_config_users() -> (r: CommandSpec)
    ensures
        r@.binary == Binary::Lxc,
        r@.argv =~= seq!["config"@, "trust"@, "list"@],
{
    let mut argv: Vec<String> = Vec::new();
    argv.push(String::from_str("config"));
    argv.push(String::from_str("trust"));
    argv.push(String::from_str("list"));
    proof {
        assert(argv.deep_view() =~= seq!["config"@, "trust"@, "list"@]);
    }
    CommandSpec { binary: Binary::Lxc, argv }
}

/// List the active certificate trust tokens: `lxc config trust list-tokens`.
pub fn get_active_certificate_config_trust_tokens() -> (r: CommandSpec)
    ensures
        r@.binary == Binary::Lxc,
        r@.argv =~= seq!["config"@, "trust"@, "list-tokens"@],
{
    let mut argv: Vec<String> = Vec::new();
    argv.push(String::from_str("config"));
    argv.push(String::from_str("trust"));
    argv.push(String::from_str("list-tokens"));
    proof {
        assert(argv.deep_view() =~= seq!["config"@, "trust"@, "list-tokens"@]);
    }
    CommandSpec { binary: Binary::Lxc, argv }
}

/// Remove a trusted client: `lxc config trust remove <fingerprint>`.
pub fn del_trust_config_user(fingerprint: &str) -> (r: CommandSpec)
    ensures
        r@.binary == Binary::Lxc,
        r@.argv =~= seq!["config"@, "trust"@, "remove"@, fingerprint@],
{
    let mut argv: Vec<String> = Vec::new();
    argv.push(String::from_str("config"));
    argv.push(String::from_str("trust"));
    argv.push(String::from_str("remove"));
    argv.push(String::from_str(fingerprint));
    proof {
        assert(argv.deep_view() =~= seq!["config"@, "trust"@, "remove"@, fingerprint@]);
    }
    CommandSpec { binary: Binary::Lxc, argv }
}

/// Show a trusted client: `lxc config trust show <fingerprint>`.
pub fn show_trust_config_user(fingerprint: &str) -> (r: CommandSpec)
    ensures
        r@.binary == Binary::Lxc,
        r@.argv =~= seq!["config"@, "trust"@, "show"@, fingerprint@],
{
    let mut argv: Vec<String> = Vec::new();
    argv.push(String::from_str("config"));
    argv.push(String::from_str("trust"));
    argv.push(String::from_str("show"));
    argv.push(String::from_str(fingerprint));
    proof {
        assert(argv.deep_view() =~= seq!["config"@, "trust"@, "show"@, fingerprint@]);
    }
    CommandSpec { binary: Binary::Lxc, argv }
}

/// Show the metadata of an instance: `lxc config metadata show <fingerprint>`.
pub fn show_config_metadata(fingerprint: &str) -> (r: CommandSpec)
    ensures
        r@.binary == Binary::Lxc,
        r@.argv =~= seq!["config"@, "metadata"@, "show"@, fingerprint@],
{
    let mut argv: Vec<String> = Vec::new();
    argv.push(String::from_str("config"));
    argv.push(String::from_str("metadata"));
    argv.push(String::from_str("show"));
    argv.push(String::from_str(fingerprint));
    proof {
        assert(argv.deep_view() =~= seq!["config"@, "metadata"@, "show"@, fingerprint@]);
    }
    CommandSpec { binary: Binary::Lxc, argv }
}

} // verus!
