use subspace_node::error::Error;

#[test]
fn string_becomes_other_error() {
    let e: Error = Error::from(String::from("boom"));
    assert!(matches!(e, Error::Other(ref s) if s == "boom"));
}

#[test]
fn other_error_message_has_prefix() {
    let e = Error::Other(String::from("boom"));
    assert_eq!(e.message(), "Other: boom");
}

#[test]
fn wrapped_errors_show_their_own_text() {
    assert_eq!(Error::SubstrateCli(String::from("Invalid input")).message(), "Invalid input");
    assert_eq!(Error::SubspaceService(String::from("svc")).message(), "svc");
    assert_eq!(Error::SubstrateService(String::from("x")).message(), "x");
}
