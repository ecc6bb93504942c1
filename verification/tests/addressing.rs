use lxc_rust::address::resolve;
use lxc_rust::address::Address;
use lxc_rust::address::AddressError;
use lxc_rust::address::Scope;

#[test]
fn remote_address_renders_fully_qualified() {
    let a = resolve(Some("img"), "ubuntu").unwrap();
    assert_eq!(a.render(), "img:ubuntu");
}

#[test]
fn missing_scope_token_is_local() {
    let a = resolve(None, "c1").unwrap();
    assert_eq!(a.render(), "local:c1");
    assert!(matches!(a.scope, Scope::Local));
}

#[test]
fn local_marker_is_local_scope() {
    let a = resolve(Some("local"), "c1").unwrap();
    assert!(matches!(a.scope, Scope::Local));
    assert_eq!(a.render(), "local:c1");
}

#[test]
fn empty_remote_name_is_rejected() {
    assert_eq!(resolve(Some(""), "x").unwrap_err(), AddressError::InvalidRemoteName);
}

#[test]
fn remote_name_with_separator_is_rejected() {
    assert_eq!(resolve(Some("a:b"), "x").unwrap_err(), AddressError::InvalidRemoteName);
    assert_eq!(resolve(Some("a/b"), "x").unwrap_err(), AddressError::InvalidRemoteName);
}

#[test]
fn empty_resource_is_rejected() {
    assert_eq!(resolve(None, "").unwrap_err(), AddressError::EmptyResource);
    assert_eq!(resolve(Some("img"), "").unwrap_err(), AddressError::EmptyResource);
}

#[test]
fn snapshot_address_renders_with_slash() {
    let a: Address = resolve(None, "c1").unwrap().with_sub_resource("snap0").unwrap();
    assert_eq!(a.render(), "local:c1/snap0");
}

#[test]
fn empty_sub_resource_is_rejected() {
    let a = resolve(Some("srv"), "c1").unwrap();
    assert_eq!(a.with_sub_resource("").unwrap_err(), AddressError::EmptyResource);
}
