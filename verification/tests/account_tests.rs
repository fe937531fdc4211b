use textamp::account::{connection_line, libraries_heading, library_rows, server_line, Connection, ServerEntry};
use textamp::nav::LibraryEntry;

fn s(x: &str) -> String {
    x.to_string()
}

#[test]
fn connection_lines() {
    assert_eq!(
        connection_line(&Connection::Connected { username: s("ann"), has_plex_pass: true }),
        "Signed in as ann - Plex Pass"
    );
    assert_eq!(
        connection_line(&Connection::Connected { username: s("bo"), has_plex_pass: false }),
        "Signed in as bo - free account"
    );
    assert_eq!(connection_line(&Connection::Authenticating), "Signing in...");
    assert_eq!(connection_line(&Connection::Connecting), "Connecting to server...");
    assert_eq!(connection_line(&Connection::AuthPending { pin_code: s("AB12") }), "plex.tv/link PIN: AB12");
    assert_eq!(connection_line(&Connection::Disconnected), "Not signed in.");
    assert_eq!(connection_line(&Connection::Error(s("timeout"))), "Connection error: timeout");
}

#[test]
fn server_lines() {
    let servers = vec![
        ServerEntry { name: s("attic"), uris: vec![s("http://10.0.0.2:32400")] },
        ServerEntry { name: s("cloud"), uris: vec![s("https://a.plex.direct"), s("http://10.0.0.9:32400")] },
    ];
    assert_eq!(server_line(Some("http://10.0.0.9:32400"), &servers), "Server: cloud");
    assert_eq!(server_line(Some("http://other:1"), &servers), "Server: http://other:1");
    assert_eq!(server_line(None, &servers), "Server: (not connected)");
}

#[test]
fn library_list() {
    let libs = vec![
        LibraryEntry { key: s("1"), title: s("Music") },
        LibraryEntry { key: s("2"), title: s("Live") },
    ];
    assert_eq!(libraries_heading(libs.len()), "Music libraries (2):");
    assert_eq!(library_rows(&libs, Some("2")), vec![(s("  Music"), false), (s("* Live"), true)]);
    assert_eq!(library_rows(&libs, None), vec![(s("  Music"), false), (s("  Live"), false)]);
}
