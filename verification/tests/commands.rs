use lxc_rust::address::AddressError;
use lxc_rust::command::Binary;
use lxc_rust::command::BuildError;
use lxc_rust::config::set_config_property;
use lxc_rust::container::copy_local_lxc;
use lxc_rust::container::copy_remote_lxc;
use lxc_rust::container::get_local_lxc;
use lxc_rust::container::launch_local_lxc;
use lxc_rust::container::launch_remote_lxc;
use lxc_rust::container::push_file_in_lxc;
use lxc_rust::container::rename_local_lxc;
use lxc_rust::container::rename_remote_lxc;
use lxc_rust::container::start_remote_lxc;
use lxc_rust::daemon::del_lxd_cluster_raft_node_config;
use lxc_rust::daemon::lxd_init;
use lxc_rust::image::copy_lxc_image;
use lxc_rust::image::create_image_alias;
use lxc_rust::image::copy_lxc_image_from_remote;
use lxc_rust::image::get_local_lxc_images;
use lxc_rust::image::get_registry_lxc_images;
use lxc_rust::image::get_remote_lxc_images;
use lxc_rust::image::search_lxc_image;
use lxc_rust::network::get_dhcp_remote_network_leases;
use lxc_rust::network::set_local_network_config_property;
use lxc_rust::operation::del_local_background_operation;
use lxc_rust::profile::copy_from_local_to_remote;
use lxc_rust::profile::get_remote_profiles;
use lxc_rust::project::delete_local_project;
use lxc_rust::remote_connection::connect_to_remote_registry;
use lxc_rust::snapshot::copy_lxc_snapshot_to_remote;
use lxc_rust::snapshot::del_remote_lxc_snapshot;
use lxc_rust::snapshot::restore_local_lxc_snapshot;
use lxc_rust::storage::create_local_storage;
use lxc_rust::storage::create_remote_storage;
use lxc_rust::volume::del_remote_volume;
use lxc_rust::volume::rename_local_volume_lxc;

fn argv_of(xs: &[&str]) -> Vec<String> {
    xs.iter().map(|s| s.to_string()).collect()
}

#[test]
fn daemon_commands_use_the_lxd_binary() {
    let c = lxd_init();
    assert_eq!(c.binary, Binary::Lxd);
    assert_eq!(c.argv, argv_of(&["init"]));
    let c = del_lxd_cluster_raft_node_config("node3");
    assert_eq!(c.argv, argv_of(&["cluster", "remove-raft-node", "node3"]));
}

#[test]
fn listing_local_containers() {
    let c = get_local_lxc().unwrap();
    assert_eq!(c.binary, Binary::Lxc);
    assert_eq!(c.argv, argv_of(&["list", "local:"]));
}

#[test]
fn listing_images_in_each_scope() {
    assert_eq!(get_local_lxc_images(None).unwrap().argv, argv_of(&["image", "list", "local:"]));
    assert_eq!(get_remote_lxc_images("srv").unwrap().argv, argv_of(&["image", "list", "srv:"]));
    assert_eq!(get_registry_lxc_images().argv, argv_of(&["image", "list", "images:"]));
}

#[test]
fn copying_an_image_from_the_registry() {
    let c = copy_lxc_image("ubuntu-20.04", "my-image").unwrap();
    assert_eq!(
        c.argv,
        argv_of(&["image", "copy", "images:ubuntu-20.04", "local:", "--alias", "my-image"])
    );
}

#[test]
fn copying_an_image_from_a_remote() {
    let c = copy_lxc_image_from_remote("focal", "srv", "mine").unwrap();
    assert_eq!(c.argv, argv_of(&["image", "copy", "srv:focal", "local:", "--alias", "mine"]));
}

#[test]
fn creating_an_image_alias_uses_the_alias_subcommand() {
    let c = create_image_alias("web", "abc123");
    assert_eq!(c.argv, argv_of(&["image", "alias", "create", "web", "abc123"]));
}

#[test]
fn searching_the_registry() {
    let c = search_lxc_image("alpine");
    assert_eq!(c.argv, argv_of(&["image", "list", "images:", "alpine"]));
}

#[test]
fn launching_in_each_scope() {
    assert_eq!(
        launch_local_lxc("alpine", "web").unwrap().argv,
        argv_of(&["launch", "images:alpine", "web"])
    );
    assert_eq!(
        launch_remote_lxc("srv", "alpine", "web").unwrap().argv,
        argv_of(&["launch", "srv:alpine", "srv:web"])
    );
}

#[test]
fn renaming_a_local_container() {
    let c = rename_local_lxc("c1", "c2").unwrap();
    assert_eq!(c.argv, argv_of(&["move", "local:c1", "c2"]));
}

#[test]
fn renaming_a_remote_container_carries_the_new_name() {
    let c = rename_remote_lxc("srv", "c1", "c2").unwrap();
    assert_eq!(c.argv, argv_of(&["move", "srv:c1", "srv:c2"]));
    assert!(c.argv.iter().any(|a| a.contains("c2")));
}

#[test]
fn copying_a_local_container_qualifies_both_addresses() {
    let c = copy_local_lxc("c1", "c2").unwrap();
    assert_eq!(c.argv, argv_of(&["copy", "local:c1", "local:c2"]));
}

#[test]
fn copying_a_remote_container_names_source_and_destination() {
    let c = copy_remote_lxc("srv", "c1", "c2").unwrap();
    assert_eq!(c.argv, argv_of(&["copy", "srv:c1", "srv:c2"]));
}

#[test]
fn creating_storage_carries_the_filesystem_in_both_scopes() {
    assert_eq!(
        create_local_storage("pool1", "btrfs").unwrap().argv,
        argv_of(&["storage", "create", "local:pool1", "btrfs"])
    );
    assert_eq!(
        create_remote_storage("srv", "pool1", "zfs").unwrap().argv,
        argv_of(&["storage", "create", "srv:pool1", "zfs"])
    );
}

#[test]
fn volume_operations_follow_their_pool() {
    assert_eq!(
        rename_local_volume_lxc("pool1", "v1", "v2").unwrap().argv,
        argv_of(&["storage", "volume", "rename", "pool1", "v1", "v2"])
    );
    assert_eq!(
        del_remote_volume("srv", "pool1", "v1").unwrap().argv,
        argv_of(&["storage", "volume", "delete", "srv:pool1", "srv:v1"])
    );
}

#[test]
fn remote_profile_listing_uses_the_scope_token() {
    assert_eq!(get_remote_profiles("srv").unwrap().argv, argv_of(&["profile", "list", "srv:"]));
}

#[test]
fn copying_a_profile_across_scopes() {
    let c = copy_from_local_to_remote("srv", "base", "base2").unwrap();
    assert_eq!(c.argv, argv_of(&["profile", "copy", "local:base", "srv:base2"]));
}

#[test]
fn network_set_leaves_the_local_name_bare() {
    let c = set_local_network_config_property("lxdbr0", "ipv4.nat", "true").unwrap();
    assert_eq!(c.argv, argv_of(&["network", "set", "lxdbr0", "ipv4.nat", "true"]));
}

#[test]
fn listing_remote_dhcp_leases_renders_the_address() {
    let c = get_dhcp_remote_network_leases("srv", "net0").unwrap();
    assert_eq!(c.argv, argv_of(&["network", "list-leases", "srv:net0"]));
    assert_eq!(
        get_dhcp_remote_network_leases("a/b", "net0").unwrap_err(),
        AddressError::InvalidRemoteName
    );
}

#[test]
fn snapshot_addresses_are_slash_qualified() {
    assert_eq!(
        del_remote_lxc_snapshot("srv", "c1", "s0").unwrap().argv,
        argv_of(&["delete", "srv:c1/s0"])
    );
    assert_eq!(
        copy_lxc_snapshot_to_remote("c1", "s0", "srv", "c2").unwrap().argv,
        argv_of(&["copy", "local:c1/s0", "srv:c2"])
    );
}

#[test]
fn restoring_a_local_snapshot() {
    let c = restore_local_lxc_snapshot("c1", "s0").unwrap();
    assert_eq!(c.argv, argv_of(&["restore", "local:c1", "s0"]));
}

#[test]
fn setting_a_global_config_key() {
    let c = set_config_property("core.https_address", "[::]").unwrap();
    assert_eq!(c.argv, argv_of(&["config", "set", "core.https_address", "[::]"]));
}

#[test]
fn registering_a_remote() {
    let c = connect_to_remote_registry("srv", "https://10.0.0.1:8443").unwrap();
    assert_eq!(c.argv, argv_of(&["remote", "add", "srv", "https://10.0.0.1:8443"]));
}

#[test]
fn cancelling_a_background_operation() {
    let c = del_local_background_operation("op7").unwrap();
    assert_eq!(c.argv, argv_of(&["operation", "delete", "local:op7"]));
}

#[test]
fn deleting_a_local_project_uses_the_lxc_binary() {
    let c = delete_local_project("p1").unwrap();
    assert_eq!(c.binary, Binary::Lxc);
    assert_eq!(c.argv, argv_of(&["project", "delete", "local:p1"]));
}

#[test]
fn pushing_a_file_is_scopeless() {
    let c = push_file_in_lxc("./a.txt", "c1/root/a.txt");
    assert_eq!(c.argv, argv_of(&["file", "push", "./a.txt", "c1/root/a.txt"]));
}

#[test]
fn invalid_remote_fails_every_remote_constructor() {
    assert_eq!(
        start_remote_lxc("a:b", "c1").unwrap_err(),
        BuildError::InvalidAddress(AddressError::InvalidRemoteName)
    );
    assert_eq!(
        create_remote_storage("", "pool1", "zfs").unwrap_err(),
        BuildError::InvalidAddress(AddressError::InvalidRemoteName)
    );
}

#[test]
fn empty_resource_fails_scoped_constructors() {
    assert_eq!(
        rename_local_lxc("", "c2").unwrap_err(),
        BuildError::InvalidAddress(AddressError::EmptyResource)
    );
    assert_eq!(
        launch_local_lxc("alpine", "").unwrap_err(),
        BuildError::InvalidAddress(AddressError::EmptyResource)
    );
}
