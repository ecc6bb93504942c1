use lxc_rust::address::AddressError;
use lxc_rust::builder::build;
use lxc_rust::command::Action;
use lxc_rust::command::Binary;
use lxc_rust::command::BuildError;
use lxc_rust::command::ParamName;
use lxc_rust::command::ParamSet;
use lxc_rust::command::ResourceKind;

fn argv_of(xs: &[&str]) -> Vec<String> {
    xs.iter().map(|s| s.to_string()).collect()
}

#[test]
fn storage_create_renders_scoped_name_and_filesystem() {
    let mut p = ParamSet::empty();
    p.name = Some("pool1".to_string());
    p.filesystem = Some("btrfs".to_string());
    let c = build(ResourceKind::Storage, Action::Create, p).unwrap();
    assert_eq!(c.binary, Binary::Lxc);
    assert_eq!(c.argv, argv_of(&["storage", "create", "local:pool1", "btrfs"]));
}

#[test]
fn image_copy_defaults_to_registry_source_and_local_destination() {
    let mut p = ParamSet::empty();
    p.name = Some("ubuntu-20.04".to_string());
    p.alias = Some("my-image".to_string());
    let c = build(ResourceKind::Image, Action::Copy, p).unwrap();
    assert_eq!(
        c.argv,
        argv_of(&["image", "copy", "images:ubuntu-20.04", "local:", "--alias", "my-image"])
    );
}

#[test]
fn container_rename_incorporates_the_new_name() {
    let mut p = ParamSet::empty();
    p.name = Some("c1".to_string());
    p.new_name = Some("c2".to_string());
    let c = build(ResourceKind::Container, Action::Rename, p).unwrap();
    assert_eq!(c.argv, argv_of(&["move", "local:c1", "c2"]));
    assert!(c.argv.iter().any(|a| a == "c2"));
}

#[test]
fn build_is_idempotent_on_identical_inputs() {
    let mut p = ParamSet::empty();
    p.name = Some("web".to_string());
    p.image = Some("alpine".to_string());
    p.remote = Some("srv".to_string());
    let first = build(ResourceKind::Container, Action::Launch, p.clone());
    let second = build(ResourceKind::Container, Action::Launch, p);
    assert_eq!(first, second);
    assert_eq!(
        first.unwrap().argv,
        argv_of(&["launch", "srv:alpine", "srv:web"])
    );
}

#[test]
fn every_required_parameter_present_succeeds() {
    let mut p = ParamSet::empty();
    p.name = Some("proj".to_string());
    p.key = Some("limits.cpu".to_string());
    p.value = Some("4".to_string());
    assert!(build(ResourceKind::Project, Action::SetValue, p).is_ok());
}

#[test]
fn omitting_a_required_parameter_is_missing_param() {
    let mut p = ParamSet::empty();
    p.name = Some("proj".to_string());
    p.value = Some("4".to_string());
    assert_eq!(
        build(ResourceKind::Project, Action::SetValue, p).unwrap_err(),
        BuildError::MissingParam(ParamName::Key)
    );
    let mut q = ParamSet::empty();
    q.name = Some("pool1".to_string());
    assert_eq!(
        build(ResourceKind::Storage, Action::Create, q).unwrap_err(),
        BuildError::MissingParam(ParamName::Filesystem)
    );
}

#[test]
fn supplying_an_undeclared_parameter_is_unexpected_param() {
    let mut p = ParamSet::empty();
    p.name = Some("pool1".to_string());
    p.key = Some("size".to_string());
    assert_eq!(
        build(ResourceKind::Storage, Action::Delete, p).unwrap_err(),
        BuildError::UnexpectedParam(ParamName::Key)
    );
}

#[test]
fn scope_on_a_scopeless_entry_is_unexpected_param() {
    let mut p = ParamSet::empty();
    p.key = Some("core.https_address".to_string());
    p.remote = Some("srv".to_string());
    assert_eq!(
        build(ResourceKind::ConfigKey, Action::Get, p).unwrap_err(),
        BuildError::UnexpectedParam(ParamName::Remote)
    );
}

#[test]
fn unknown_pair_is_unsupported_action() {
    let p = ParamSet::empty();
    assert_eq!(
        build(ResourceKind::Storage, Action::Start, p).unwrap_err(),
        BuildError::UnsupportedAction
    );
}

#[test]
fn invalid_remote_name_is_rejected_before_rendering() {
    let mut p = ParamSet::empty();
    p.name = Some("c1".to_string());
    p.remote = Some("a:b".to_string());
    assert_eq!(
        build(ResourceKind::Container, Action::Start, p).unwrap_err(),
        BuildError::InvalidAddress(AddressError::InvalidRemoteName)
    );
}

#[test]
fn empty_resource_name_is_rejected_before_rendering() {
    let mut p = ParamSet::empty();
    p.name = Some("".to_string());
    assert_eq!(
        build(ResourceKind::Container, Action::Start, p).unwrap_err(),
        BuildError::InvalidAddress(AddressError::EmptyResource)
    );
}

#[test]
fn snapshot_copy_renders_path_and_destination() {
    let mut p = ParamSet::empty();
    p.name = Some("c1".to_string());
    p.snapshot = Some("snap0".to_string());
    p.new_name = Some("c2".to_string());
    p.dest_remote = Some("srv".to_string());
    let c = build(ResourceKind::Snapshot, Action::Copy, p).unwrap();
    assert_eq!(c.argv, argv_of(&["copy", "local:c1/snap0", "srv:c2"]));
}
