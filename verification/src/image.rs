//! Image operations: listing, copying, publishing, aliases and properties.

use crate::address::AddressError;
use crate::address::valid_remote_name;
use crate::builder;
use crate::command::Action;
use crate::command::Binary;
use crate::command::BuildError;
use crate::command::CommandSpec;
use crate::command::CommandSpecV;
use crate::command::ParamName;
use crate::command::ParamSet;
use crate::command::ResourceKind;
use crate::registry;
use vstd::prelude::*;
use vstd::string::StringExecFns;

verus! {

/// List the local images: `lxc image list local:`.
pub fn get_local_lxc_images(_flags: Option<Vec<&str>>) -> (r: Result<CommandSpec, BuildError>)
    ensures
        (r matches Ok(c) && c@.binary == Binary::Lxc && c@.argv =~= seq!["image"@, "list"@, "local:"@]),
{
    let p = ParamSet::empty();
    let ghost gp = p;
    let r = builder::build(ResourceKind::Image, Action::List, p);
    proof {
        reveal_with_fuel(builder::first_missing, 10);
        reveal_with_fuel(builder::first_empty, 10);
        let toks = registry::spec_entry(ResourceKind::Image, Action::List)->0;
        assert(builder::spec_argv(toks, gp) =~= seq!["image"@, "list"@, "local:"@]);
        assert(builder::spec_build(ResourceKind::Image, Action::List, gp) matches Ok(c) && c.binary == Binary::Lxc && c.argv == builder::spec_argv(toks, gp));
    }
    r
}

/// List the images of a named remote: `lxc image list <remote>:`.
pub fn get_remote_lxc_images(remote: &str) -> (r: Result<CommandSpec, BuildError>)
    ensures
        (valid_remote_name(remote@)) ==> (r matches Ok(c) && c@.binary == Binary::Lxc && c@.argv =~= seq!["image"@, "list"@, remote@ + ":"@]),
        (!valid_remote_name(remote@)) ==> r == Err::<CommandSpec, BuildError>(BuildError::InvalidAddress(AddressError::InvalidRemoteName)),
{
    let mut p = ParamSet::empty();
    p.remote = Some(String::from_str(remote));
    let ghost gp = p;
    let r = builder::build(ResourceKind::Image, Action::List, p);
    proof {
        reveal_with_fuel(builder::first_missing, 10);
        reveal_with_fuel(builder::first_empty, 10);
        let toks = registry::spec_entry(ResourceKind::Image, Action::List)->0;
        assert(builder::uses_src_scope(toks)) by {
            assert(builder::token_uses_src(toks[2]));
        }
        if valid_remote_name(remote@) {
            assert(builder::spec_argv(toks, gp) =~= seq!["image"@, "list"@, remote@ + ":"@]);
            assert(builder::spec_build(ResourceKind::Image, Action::List, gp) matches Ok(c) && c.binary == Binary::Lxc && c.argv == builder::spec_argv(toks, gp));
        }
        if !valid_remote_name(remote@) {
            assert(builder::spec_build(ResourceKind::Image, Action::List, gp) == Err::<CommandSpecV, BuildError>(BuildError::InvalidAddress(AddressError::InvalidRemoteName)));
        }
    }
    r
}

/// Show detailed information about an image: `lxc image info <image>`.
pub fn get_lxc_image_info(image: &str) -> (r: Result<CommandSpec, BuildError>)
    ensures
        (r matches Ok(c) && c@.binary == Binary::Lxc && c@.argv =~= seq!["image"@, "info"@, image@]),
{
    let mut p = ParamSet::empty();
    p.name = Some(String::from_str(image));
    let ghost gp = p;
    let r = builder::build(ResourceKind::Image, Action::Info, p);
    proof {
        reveal_with_fuel(builder::first_missing, 10);
        reveal_with_fuel(builder::first_empty, 10);
        let toks = registry::spec_entry(ResourceKind::Image, Action::Info)->0;
        assert(builder::requires_param(toks, ParamName::Name)) by {
            assert(builder::token_requires(toks[2], ParamName::Name));
        }
        assert(builder::spec_argv(toks, gp) =~= seq!["image"@, "info"@, image@]);
        assert(builder::spec_build(ResourceKind::Image, Action::Info, gp) matches Ok(c) && c.binary == Binary::Lxc && c.argv == builder::spec_argv(toks, gp));
    }
    r
}

/// Show the short description of an image: `lxc image show <image>`.
pub fn get_lxc_image_show(image: &str) -> (r: Result<CommandSpec, BuildError>)
    ensures
        (r matches Ok(c) && c@.binary == Binary::Lxc && c@.argv =~= seq!["image"@, "show"@, image@]),
{
    let mut p = ParamSet::empty();
    p.name = Some(String::from_str(image));
    let ghost gp = p;
    let r = builder::build(ResourceKind::Image, Action::Show, p);
    proof {
        reveal_with_fuel(builder::first_missing, 10);
        reveal_with_fuel(builder::first_empty, 10);
        let toks = registry::spec_entry(ResourceKind::Image, Action::Show)->0;
        assert(builder::requires_param(toks, ParamName::Name)) by {
            assert(builder::token_requires(toks[2], ParamName::Name));
        }
        assert(builder::spec_argv(toks, gp) =~= seq!["image"@, "show"@, image@]);
        assert(builder::spec_build(ResourceKind::Image, Action::Show, gp) matches Ok(c) && c.binary == Binary::Lxc && c.argv == builder::spec_argv(toks, gp));
    }
    r
}

/// Copy an image from the public registry to the local store under an
/// alias: `lxc image copy images:<image> local: --alias <alias>`.
pub fn copy_lxc_image(image: &str, alias: &str) -> (r: Result<CommandSpec, BuildError>)
    ensures
        (image@.len() > 0) ==> (r matches Ok(c) && c@.binary == Binary::Lxc && c@.argv =~= seq!["image"@, "copy"@, "images:"@ + image@, "local:"@, "--alias"@, alias@]),
        (image@.len() == 0) ==> r == Err::<CommandSpec, BuildError>(BuildError::InvalidAddress(AddressError::EmptyResource)),
{
    let mut p = ParamSet::empty();
    p.name = Some(String::from_str(image));
    p.alias = Some(String::from_str(alias));
    let ghost gp = p;
    let r = builder::build(ResourceKind::Image, Action::Copy, p);
    proof {
        reveal_with_fuel(builder::first_missing, 10);
        reveal_with_fuel(builder::first_empty, 10);
        let toks = registry::spec_entry(ResourceKind::Image, Action::Copy)->0;
        assert(builder::requires_param(toks, ParamName::Name)) by {
            assert(builder::token_requires(toks[2], ParamName::Name));
        }
        assert(builder::requires_param(toks, ParamName::Alias)) by {
            assert(builder::token_requires(toks[5], ParamName::Alias));
        }
        if image@.len() > 0 {
            assert(builder::spec_argv(toks, gp) =~= seq!["image"@, "copy"@, "images:"@ + image@, "local:"@, "--alias"@, alias@]);
            assert(builder::spec_build(ResourceKind::Image, Action::Copy, gp) matches Ok(c) && c.binary == Binary::Lxc && c.argv == builder::spec_argv(toks, gp));
        }
        if image@.len() == 0 {
            assert(builder::spec_build(ResourceKind::Image, Action::Copy, gp) == Err::<CommandSpecV, BuildError>(BuildError::InvalidAddress(AddressError::EmptyResource)));
        }
    }
    r
}

/// Copy an image from the public registry to a named remote under an
/// alias: `lxc image copy images:<image> <remote>: --alias <alias>`.
pub fn copy_lxc_image_to_remote(image: &str, remote: &str, alias: &str) -> (r: Result<CommandSpec, BuildError>)
    ensures
        (valid_remote_name(remote@) && image@.len() > 0) ==> (r matches Ok(c) && c@.binary == Binary::Lxc && c@.argv =~= seq!["image"@, "copy"@, "images:"@ + image@, remote@ + ":"@, "--alias"@, alias@]),
        (!valid_remote_name(remote@)) ==> r == Err::<CommandSpec, BuildError>(BuildError::InvalidAddress(AddressError::InvalidRemoteName)),
        (valid_remote_name(remote@) && image@.len() == 0) ==> r == Err::<CommandSpec, BuildError>(BuildError::InvalidAddress(AddressError::EmptyResource)),
{
    let mut p = ParamSet::empty();
    p.name = Some(String::from_str(image));
    p.alias = Some(String::from_str(alias));
    p.dest_remote = Some(String::from_str(remote));
    let ghost gp = p;
    let r = builder::build(ResourceKind::Image, Action::Copy, p);
    proof {
        reveal_with_fuel(builder::first_missing, 10);
        reveal_with_fuel(builder::first_empty, 10);
        let toks = registry::spec_entry(ResourceKind::Image, Action::Copy)->0;
        assert(builder::requires_param(toks, ParamName::Name)) by {
            assert(builder::token_requires(toks[2], ParamName::Name));
        }
        assert(builder::requires_param(toks, ParamName::Alias)) by {
            assert(builder::token_requires(toks[5], ParamName::Alias));
        }
        assert(builder::uses_dst_scope(toks)) by {
            assert(builder::token_uses_dst(toks[3]));
        }
        if valid_remote_name(remote@) && image@.len() > 0 {
            assert(builder::spec_argv(toks, gp) =~= seq!["image"@, "copy"@, "images:"@ + image@, remote@ + ":"@, "--alias"@, alias@]);
            assert(builder::spec_build(ResourceKind::Image, Action::Copy, gp) matches Ok(c) && c.binary == Binary::Lxc && c.argv == builder::spec_argv(toks, gp));
        }
        if !valid_remote_name(remote@) {
            assert(builder::spec_build(ResourceKind::Image, Action::Copy, gp) == Err::<CommandSpecV, BuildError>(BuildError::InvalidAddress(AddressError::InvalidRemoteName)));
        }
        if valid_remote_name(remote@) && image@.len() == 0 {
            assert(builder::spec_build(ResourceKind::Image, Action::Copy, gp) == Err::<CommandSpecV, BuildError>(BuildError::InvalidAddress(AddressError::EmptyResource)));
        }
    }
    r
}

/// Copy an image from a named remote to the local store under an
/// alias: `lxc image copy <remote>:<image> local: --alias <alias>`.
pub fn copy_lxc_image_from_remote(image: &str, remote: &str, alias: &str) -> (r: Result<CommandSpec, BuildError>)
    ensures
        (valid_remote_name(remote@) && image@.len() > 0) ==> (r matches Ok(c) && c@.binary == Binary::Lxc && c@.argv =~= seq!["image"@, "copy"@, remote@ + ":"@ + image@, "local:"@, "--alias"@, alias@]),
        (!valid_remote_name(remote@)) ==> r == Err::<CommandSpec, BuildError>(BuildError::InvalidAddress(AddressError::InvalidRemoteName)),
        (valid_remote_name(remote@) && image@.len() == 0) ==> r == Err::<CommandSpec, BuildError>(BuildError::InvalidAddress(AddressError::EmptyResource)),
{
    let mut p = ParamSet::empty();
    p.name = Some(String::from_str(image));
    p.alias = Some(String::from_str(alias));
    p.remote = Some(String::from_str(remote));
    let ghost gp = p;
    let r = builder::build(ResourceKind::Image, Action::Copy, p);
    proof {
        reveal_with_fuel(builder::first_missing, 10);
        reveal_with_fuel(builder::first_empty, 10);
        let toks = registry::spec_entry(ResourceKind::Image, Action::Copy)->0;
        assert(builder::requires_param(toks, ParamName::Name)) by {
            assert(builder::token_requires(toks[2], ParamName::Name));
        }
        assert(builder::requires_param(toks, ParamName::Alias)) by {
            assert(builder::token_requires(toks[5], ParamName::Alias));
        }
        assert(builder::uses_src_scope(toks)) by {
            assert(builder::token_uses_src(toks[2]));
        }
        if valid_remote_name(remote@) && image@.len() > 0 {
            assert(builder::spec_argv(toks, gp) =~= seq!["image"@, "copy"@, remote@ + ":"@ + image@, "local:"@, "--alias"@, alias@]);
            assert(builder::spec_build(ResourceKind::Image, Action::Copy, gp) matches Ok(c) && c.binary == Binary::Lxc && c.argv == builder::spec_argv(toks, gp));
        }
        if !valid_remote_name(remote@) {
            assert(builder::spec_build(ResourceKind::Image, Action::Copy, gp) == Err::<CommandSpecV, BuildError>(BuildError::InvalidAddress(AddressError::InvalidRemoteName)));
        }
        if valid_remote_name(remote@) && image@.len() == 0 {
            assert(builder::spec_build(ResourceKind::Image, Action::Copy, gp) == Err::<CommandSpecV, BuildError>(BuildError::InvalidAddress(AddressError::EmptyResource)));
        }
    }
    r
}

/// Publish a container as an image under an alias:
/// `lxc publish <container> --alias <alias>`.
pub fn publish_lxc_image(container: &str, alias: &str) -> (r: Result<CommandSpec, BuildError>)
    ensures
        (r matches Ok(c) && c@.binary == Binary::Lxc && c@.argv =~= seq!["publish"@, container@, "--alias"@, alias@]),
{
    let mut p = ParamSet::empty();
    p.name = Some(String::from_str(container));
    p.alias = Some(String::from_str(alias));
    let ghost gp = p;
    let r = builder::build(ResourceKind::Image, Action::Publish, p);
    proof {
        reveal_with_fuel(builder::first_missing, 10);
        reveal_with_fuel(builder::first_empty, 10);
        let toks = registry::spec_entry(ResourceKind::Image, Action::Publish)->0;
        assert(builder::requires_param(toks, ParamName::Name)) by {
            assert(builder::token_requires(toks[1], ParamName::Name));
        }
        assert(builder::requires_param(toks, ParamName::Alias)) by {
            assert(builder::token_requires(toks[3], ParamName::Alias));
        }
        assert(builder::spec_argv(toks, gp) =~= seq!["publish"@, container@, "--alias"@, alias@]);
        assert(builder::spec_build(ResourceKind::Image, Action::Publish, gp) matches Ok(c) && c.binary == Binary::Lxc && c.argv == builder::spec_argv(toks, gp));
    }
    r
}

/// Export an image to a file: `lxc image export <image> <name>`.
pub fn export_lxc_image(image: &str, name: &str) -> (r: Result<CommandSpec, BuildError>)
    ensures
        (r matches Ok(c) && c@.binary == Binary::Lxc && c@.argv =~= seq!["image"@, "export"@, image@, name@]),
{
    let mut p = ParamSet::empty();
    p.name = Some(String::from_str(image));
    p.path = Some(String::from_str(name));
    let ghost gp = p;
    let r = builder::build(ResourceKind::Image, Action::Export, p);
    proof {
        reveal_with_fuel(builder::first_missing, 10);
        reveal_with_fuel(builder::first_empty, 10);
        let toks = registry::spec_entry(ResourceKind::Image, Action::Export)->0;
        assert(builder::requires_param(toks, ParamName::Name)) by {
            assert(builder::token_requires(toks[2], ParamName::Name));
        }
        assert(builder::requires_param(toks, ParamName::Path)) by {
            assert(builder::token_requires(toks[3], ParamName::Path));
        }
        assert(builder::spec_argv(toks, gp) =~= seq!["image"@, "export"@, image@, name@]);
        assert(builder::spec_build(ResourceKind::Image, Action::Export, gp) matches Ok(c) && c.binary == Binary::Lxc && c.argv == builder::spec_argv(toks, gp));
    }
    r
}

/// Import an image file under an alias:
/// `lxc image import <file> --alias <alias>`.
pub fn import_lxc_image(image: &str, import_name: &str) -> (r: Result<CommandSpec, BuildError>)
    ensures
        (r matches Ok(c) && c@.binary == Binary::Lxc && c@.argv =~= seq!["image"@, "import"@, image@, "--alias"@, import_name@]),
{
    let mut p = ParamSet::empty();
    p.path = Some(String::from_str(image));
    p.alias = Some(String::from_str(import_name));
    let ghost gp = p;
    let r = builder::build(ResourceKind::Image, Action::Import, p);
    proof {
        reveal_with_fuel(builder::first_missing, 10);
        reveal_with_fuel(builder::first_empty, 10);
        let toks = registry::spec_entry(ResourceKind::Image, Action::Import)->0;
        assert(builder::requires_param(toks, ParamName::Path)) by {
            assert(builder::token_requires(toks[2], ParamName::Path));
        }
        assert(builder::requires_param(toks, ParamName::Alias)) by {
            assert(builder::token_requires(toks[4], ParamName::Alias));
        }
        assert(builder::spec_argv(toks, gp) =~= seq!["image"@, "import"@, image@, "--alias"@, import_name@]);
        assert(builder::spec_build(ResourceKind::Image, Action::Import, gp) matches Ok(c) && c.binary == Binary::Lxc && c.argv == builder::spec_argv(toks, gp));
    }
    r
}

/// Delete an image: `lxc image delete <image>`.
pub fn del_lxc_image(image: &str) -> (r: Result<CommandSpec, BuildError>)
    ensures
        (r matches Ok(c) && c@.binary == Binary::Lxc && c@.argv =~= seq!["image"@, "delete"@, image@]),
{
    let mut p = ParamSet::empty();
    p.name = Some(String::from_str(image));
    let ghost gp = p;
    let r = builder::build(ResourceKind::Image, Action::Delete, p);
    proof {
        reveal_with_fuel(builder::first_missing, 10);
        reveal_with_fuel(builder::first_empty, 10);
        let toks = registry::spec_entry(ResourceKind::Image, Action::Delete)->0;
        assert(builder::requires_param(toks, ParamName::Name)) by {
            assert(builder::token_requires(toks[2], ParamName::Name));
        }
        assert(builder::spec_argv(toks, gp) =~= seq!["image"@, "delete"@, image@]);
        assert(builder::spec_build(ResourceKind::Image, Action::Delete, gp) matches Ok(c) && c.binary == Binary::Lxc && c.argv == builder::spec_argv(toks, gp));
    }
    r
}

/// Refresh an image from its origin: `lxc image refresh <image>`.
pub fn refresh_lxc_image(image: &str) -> (r: Result<CommandSpec, BuildError>)
    ensures
        (r matches Ok(c) && c@.binary == Binary::Lxc && c@.argv =~= seq!["image"@, "refresh"@, image@]),
{
    let mut p = ParamSet::empty();
    p.name = Some(String::from_str(image));
    let ghost gp = p;
    let r = builder::build(ResourceKind::Image, Action::Refresh, p);
    proof {
        reveal_with_fuel(builder::first_missing, 10);
        reveal_with_fuel(builder::first_empty, 10);
        let toks = registry::spec_entry(ResourceKind::Image, Action::Refresh)->0;
        assert(builder::requires_param(toks, ParamName::Name)) by {
            assert(builder::token_requires(toks[2], ParamName::Name));
        }
        assert(builder::spec_argv(toks, gp) =~= seq!["image"@, "refresh"@, image@]);
        assert(builder::spec_build(ResourceKind::Image, Action::Refresh, gp) matches Ok(c) && c.binary == Binary::Lxc && c.argv == builder::spec_argv(toks, gp));
    }
    r
}

/// Set an image property: `lxc image set-property <image> <key> <value>`.
pub fn set_image_property(image: &str, key: &str, value: &str) -> (r: Result<CommandSpec, BuildError>)
    ensures
        (r matches Ok(c) && c@.binary == Binary::Lxc && c@.argv =~= seq!["image"@, "set-property"@, image@, key@, value@]),
{
    let mut p = ParamSet::empty();
    p.name = Some(String::from_str(image));
    p.key = Some(String::from_str(key));
    p.value = Some(String::from_str(value));
    let ghost gp = p;
    let r = builder::build(ResourceKind::Image, Action::SetValue, p);
    proof {
        reveal_with_fuel(builder::first_missing, 10);
        reveal_with_fuel(builder::first_empty, 10);
        let toks = registry::spec_entry(ResourceKind::Image, Action::SetValue)->0;
        assert(builder::requires_param(toks, ParamName::Name)) by {
            assert(builder::token_requires(toks[2], ParamName::Name));
        }
        assert(builder::requires_param(toks, ParamName::Key)) by {
            assert(builder::token_requires(toks[3], ParamName::Key));
        }
        assert(builder::requires_param(toks, ParamName::Value)) by {
            assert(builder::token_requires(toks[4], ParamName::Value));
        }
        assert(builder::spec_argv(toks, gp) =~= seq!["image"@, "set-property"@, image@, key@, value@]);
        assert(builder::spec_build(ResourceKind::Image, Action::SetValue, gp) matches Ok(c) && c.binary == Binary::Lxc && c.argv == builder::spec_argv(toks, gp));
    }
    r
}

/// Unset an image property: `lxc image unset-property <image> <key>`.
pub fn unset_image_property(image: &str, key: &str) -> (r: Result<CommandSpec, BuildError>)
    ensures
        (r matches Ok(c) && c@.binary == Binary::Lxc && c@.argv =~= seq!["image"@, "unset-property"@, image@, key@]),
{
    let mut p = ParamSet::empty();
    p.name = Some(String::from_str(image));
    p.key = Some(String::from_str(key));
    let ghost gp = p;
    let r = builder::build(ResourceKind::Image, Action::Unset, p);
    proof {
        reveal_with_fuel(builder::first_missing, 10);
        reveal_with_fuel(builder::first_empty, 10);
        let toks = registry::spec_entry(ResourceKind::Image, Action::Unset)->0;
        assert(builder::requires_param(toks, ParamName::Name)) by {
            assert(builder::token_requires(toks[2], ParamName::Name));
        }
        assert(builder::requires_param(toks, ParamName::Key)) by {
            assert(builder::token_requires(toks[3], ParamName::Key));
        }
        assert(builder::spec_argv(toks, gp) =~= seq!["image"@, "unset-property"@, image@, key@]);
        assert(builder::spec_build(ResourceKind::Image, Action::Unset, gp) matches Ok(c) && c.binary == Binary::Lxc && c.argv == builder::spec_argv(toks, gp));
    }
    r
}

/// Delete an image alias: `lxc image delete <alias>`.
pub fn delete_image_alias(alias: &str) -> (r: Result<CommandSpec, BuildError>)
    ensures
        (r matches Ok(c) && c@.binary == Binary::Lxc && c@.argv =~= seq!["image"@, "delete"@, alias@]),
{
    let mut p = ParamSet::empty();
    p.name = Some(String::from_str(alias));
    let ghost gp = p;
    let r = builder::build(ResourceKind::Image, Action::Delete, p);
    proof {
        reveal_with_fuel(builder::first_missing, 10);
        reveal_with_fuel(builder::first_empty, 10);
        let toks = registry::spec_entry(ResourceKind::Image, Action::Delete)->0;
        assert(builder::requires_param(toks, ParamName::Name)) by {
            assert(builder::token_requires(toks[2], ParamName::Name));
        }
        assert(builder::spec_argv(toks, gp) =~= seq!["image"@, "delete"@, alias@]);
        assert(builder::spec_build(ResourceKind::Image, Action::Delete, gp) matches Ok(c) && c.binary == Binary::Lxc && c.argv == builder::spec_argv(toks, gp));
    }
    r
}

/// Rename an image alias: `lxc image rename <old> <new>`.
pub fn rename_image_alias(old_name: &str, new_name: &str) -> (r: Result<CommandSpec, BuildError>)
    ensures
        (r matches Ok(c) && c@.binary == Binary::Lxc && c@.argv =~= seq!["image"@, "rename"@, old_name@, new_name@]),
{
    let mut p = ParamSet::empty();
    p.name = Some(String::from_str(old_name));
    p.new_name = Some(String::from_str(new_name));
    let ghost gp = p;
    let r = builder::build(ResourceKind::Image, Action::Rename, p);
    proof {
        reveal_with_fuel(builder::first_missing, 10);
        reveal_with_fuel(builder::first_empty, 10);
        let toks = registry::spec_entry(ResourceKind::Image, Action::Rename)->0;
        assert(builder::requires_param(toks, ParamName::Name)) by {
            assert(builder::token_requires(toks[2], ParamName::Name));
        }
        assert(builder::requires_param(toks, ParamName::NewName)) by {
            assert(builder::token_requires(toks[3], ParamName::NewName));
        }
        assert(builder::spec_argv(toks, gp) =~= seq!["image"@, "rename"@, old_name@, new_name@]);
        assert(builder::spec_build(ResourceKind::Image, Action::Rename, gp) matches Ok(c) && c.binary == Binary::Lxc && c.argv == builder::spec_argv(toks, gp));
    }
    r
}

/// List the images of the public registry: `lxc image list images:`.
pub fn get_registry_lxc_images() -> (r: CommandSpec)
    ensures
        r@.binary == Binary::Lxc,
        r@.argv =~= seq!["image"@, "list"@, "images:"@],
{
    let mut argv: Vec<String> = Vec::new();
    argv.push(String::from_str("image"));
    argv.push(String::from_str("list"));
    argv.push(String::from_str("images:"));
    proof {
        assert(argv.deep_view() =~= seq!["image"@, "list"@, "images:"@]);
    }
    CommandSpec { binary: Binary::Lxc, argv }
}

/// Search the public registry for an image:
/// `lxc image list images: <image>`.
pub fn search_lxc_image(image: &str) -> (r: CommandSpec)
    ensures
        r@.binary == Binary::Lxc,
        r@.argv =~= seq!["image"@, "list"@, "images:"@, image@],
{
    let mut argv: Vec<String> = Vec::new();
    argv.push(String::from_str("image"));
    argv.push(String::from_str("list"));
    argv.push(String::from_str("images:"));
    argv.push(String::from_str(image));
    proof {
        assert(argv.deep_view() =~= seq!["image"@, "list"@, "images:"@, image@]);
    }
    CommandSpec { binary: Binary::Lxc, argv }
}

/// List the image aliases: `lxc image alias list`.
pub fn get_image_aliases() -> (r: CommandSpec)
    ensures
        r@.binary == Binary::Lxc,
        r@.argv =~= seq!["image"@, "alias"@, "list"@],
{
    let mut argv: Vec<String> = Vec::new();
    argv.push(String::from_str("image"));
    argv.push(String::from_str("alias"));
    argv.push(String::from_str("list"));
    proof {
        assert(argv.deep_view() =~= seq!["image"@, "alias"@, "list"@]);
    }
    CommandSpec { binary: Binary::Lxc, argv }
}

/// Create an image alias for a fingerprint:
/// `lxc image alias create <alias> <fingerprint>`.
pub fn create_image_alias(alias: &str, fingerprint: &str) -> (r: CommandSpec)
    ensures
        r@.binary == Binary::Lxc,
        r@.argv =~= seq!["image"@, "alias"@, "create"@, alias@, fingerprint@],
{
    let mut argv: Vec<String> = Vec::new();
    argv.push(String::from_str("image"));
    argv.push(String::from_str("alias"));
    argv.push(String::from_str("create"));
    argv.push(String::from_str(alias));
    argv.push(String::from_str(fingerprint));
    proof {
        assert(argv.deep_view() =~= seq!["image"@, "alias"@, "create"@, alias@, fingerprint@]);
    }
    CommandSpec { binary: Binary::Lxc, argv }
}

} // verus!
