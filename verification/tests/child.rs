use network_launcher::child::{
    choose_server_path, server_arguments, MissingServer, ServerArgument, SERVER_BINARY_NAME,
    SERVER_PROCESS_GROUP, SERVER_TTL_SECONDS,
};
use std::path::PathBuf;

fn text(t: &str) -> ServerArgument {
    ServerArgument::Text(t.to_string())
}

#[test]
fn time_to_live_is_thirty_days() {
    assert_eq!(SERVER_TTL_SECONDS, 30 * 24 * 60 * 60);
}

#[test]
fn server_gets_a_process_group_of_its_own() {
    assert_eq!(SERVER_PROCESS_GROUP, 0);
    assert_eq!(SERVER_BINARY_NAME, "pocket-ic");
}

#[test]
fn least_command_line() {
    let port_file = PathBuf::from("/tmp/watch/pocketic.port");
    assert_eq!(
        server_arguments(port_file.clone(), None, None, true),
        vec![
            text("--ttl"),
            text("2592000"),
            text("--port-file"),
            ServerArgument::Path(port_file),
        ]
    );
}

#[test]
fn quiet_server_logs_errors_only() {
    let port_file = PathBuf::from("p");
    assert_eq!(
        server_arguments(port_file.clone(), None, None, false),
        vec![
            text("--ttl"),
            text("2592000"),
            text("--port-file"),
            ServerArgument::Path(port_file),
            text("--log-levels"),
            text("error"),
        ]
    );
}

#[test]
fn full_command_line() {
    let port_file = PathBuf::from("dir/pocketic.port");
    assert_eq!(
        server_arguments(port_file.clone(), Some(4943), Some("::1"), false),
        vec![
            text("--ttl"),
            text("2592000"),
            text("--port-file"),
            ServerArgument::Path(port_file),
            text("--port"),
            text("4943"),
            text("--ip-addr"),
            text("::1"),
            text("--log-levels"),
            text("error"),
        ]
    );
}

#[test]
fn port_and_address_alone() {
    let port_file = PathBuf::from("f");
    assert_eq!(
        server_arguments(port_file.clone(), Some(0), None, true),
        vec![
            text("--ttl"),
            text("2592000"),
            text("--port-file"),
            ServerArgument::Path(port_file.clone()),
            text("--port"),
            text("0"),
        ]
    );
    assert_eq!(
        server_arguments(port_file.clone(), None, Some("127.0.0.1"), true),
        vec![
            text("--ttl"),
            text("2592000"),
            text("--port-file"),
            ServerArgument::Path(port_file),
            text("--ip-addr"),
            text("127.0.0.1"),
        ]
    );
}

#[test]
fn named_binary_is_taken_as_it_is() {
    let named = PathBuf::from("/opt/server");
    let sibling = PathBuf::from("/usr/bin/pocket-ic");
    assert_eq!(choose_server_path(Some(named.clone()), Some(sibling)), Ok(named.clone()));
    assert_eq!(choose_server_path(Some(named.clone()), None), Ok(named));
}

#[test]
fn binary_next_to_the_launcher_is_the_default() {
    let sibling = PathBuf::from("/usr/bin/pocket-ic");
    assert_eq!(choose_server_path(None, Some(sibling.clone())), Ok(sibling));
}

#[test]
fn no_binary_is_an_error() {
    assert_eq!(choose_server_path(None, None), Err(MissingServer));
}
