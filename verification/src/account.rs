//! The Account section of Settings: the sign-in status line, the server
//! line (the connected server's name when its address is one of a known
//! server's connections), and the list of music libraries with the
//! active one marked.

use vstd::prelude::*;
use crate::strings::{push_str, empty_string, eq_str};
use crate::timefmt::{dec, push_dec};
use crate::nav::LibraryEntry;

verus! {

/// The state of the connection to the media server.
#[derive(Clone, Debug)]
pub enum Connection {
    Connected { username: String, has_plex_pass: bool },
    Authenticating,
    Connecting,
    /// Waiting for the user to enter `pin_code` at plex.tv/link.
    AuthPending { pin_code: String },
    Disconnected,
    Error(String),
}

/// The status line of a connection state.
pub open spec fn connection_line_spec(c: Connection) -> Seq<char> {
    match c {
        Connection::Connected { username, has_plex_pass } => "Signed in as "@ + username@ + " - "@ + if has_plex_pass {
            "Plex Pass"@
        } else {
            "free account"@
        },
        Connection::Authenticating => "Signing in..."@,
        Connection::Connecting => "Connecting to server..."@,
        Connection::AuthPending { pin_code } => "plex.tv/link PIN: "@ + pin_code@,
        Connection::Disconnected => "Not signed in."@,
        Connection::Error(msg) => "Connection error: "@ + msg@,
    }
}

/// The status line of a connection state; see `connection_line_spec`.
pub fn connection_line(c: &Connection) -> (r: String)
    ensures
        r@ == connection_line_spec(*c),
{
    let mut out = empty_string();
    match c {
        Connection::Connected { username, has_plex_pass } => {
            push_str(&mut out, "Signed in as ");
            push_str(&mut out, username.as_str());
            push_str(&mut out, " - ");
            if *has_plex_pass {
                push_str(&mut out, "Plex Pass");
            } else {
                push_str(&mut out, "free account");
            }
        },
        Connection::Authenticating => push_str(&mut out, "Signing in..."),
        Connection::Connecting => push_str(&mut out, "Connecting to server..."),
        Connection::AuthPending { pin_code } => {
            push_str(&mut out, "plex.tv/link PIN: ");
            push_str(&mut out, pin_code.as_str());
        },
        Connection::Disconnected => push_str(&mut out, "Not signed in."),
        Connection::Error(msg) => {
            push_str(&mut out, "Connection error: ");
            push_str(&mut out, msg.as_str());
        },
    }
    out
}

/// A server the account can reach, with the addresses of its connections.
#[derive(Clone, Debug)]
pub struct ServerEntry {
    pub name: String,
    pub uris: Vec<String>,
}

/// Whether one of `uris` is `url`.
pub open spec fn has_uri(uris: Seq<String>, url: Seq<char>) -> bool {
    exists|j: int| 0 <= j < uris.len() && (#[trigger] uris[j])@ == url
}

/// The name of the first server with a connection at `url`.
pub open spec fn server_at(servers: Seq<ServerEntry>, url: Seq<char>) -> Option<Seq<char>>
    decreases servers.len(),
{
    if servers.len() == 0 {
        None
    } else if has_uri(servers[0].uris@, url) {
        Some(servers[0].name@)
    } else {
        server_at(servers.drop_first(), url)
    }
}

/// The server line: the connected server's name, else its address, else
/// "(not connected)".
pub open spec fn server_line_spec(url: Option<Seq<char>>, servers: Seq<ServerEntry>) -> Seq<char> {
    match url {
        Some(u) => match server_at(servers, u) {
            Some(name) => "Server: "@ + name,
            None => "Server: "@ + u,
        },
        None => "Server: (not connected)"@,
    }
}

fn uri_listed(uris: &Vec<String>, url: &str) -> (r: bool)
    ensures
        r == has_uri(uris@, url@),
{
    let mut j: usize = 0;
    while j < uris.len()
        invariant
            j <= uris@.len(),
            forall|k: int| 0 <= k < j ==> (#[trigger] uris@[k])@ != url@,
        decreases uris@.len() - j,
    {
        if eq_str(uris[j].as_str(), url) {
            proof {
                assert((uris@[j as int])@ == url@);
            }
            return true;
        }
        j = j + 1;
    }
    false
}

/// The server line; see `server_line_spec`.
pub fn server_line(url: Option<&str>, servers: &Vec<ServerEntry>) -> (r: String)
    ensures
        r@ == server_line_spec(
            match url {
                Some(u) => Some(u@),
                None => None,
            },
            servers@,
        ),
{
    let mut out = empty_string();
    let u = match url {
        Some(u) => u,
        None => {
            push_str(&mut out, "Server: (not connected)");
            return out;
        },
    };
    let mut i: usize = 0;
    proof {
        assert(servers@.skip(0) =~= servers@);
    }
    while i < servers.len()
        invariant
            i <= servers@.len(),
            url == Some(u),
            out@ == Seq::<char>::empty(),
            server_at(servers@, u@) == server_at(servers@.skip(i as int), u@),
        decreases servers@.len() - i,
    {
        proof {
            assert(servers@.skip(i as int).drop_first() =~= servers@.skip(i as int + 1));
            assert(servers@.skip(i as int)[0] == servers@[i as int]);
        }
        if uri_listed(&servers[i].uris, u) {
            push_str(&mut out, "Server: ");
            push_str(&mut out, servers[i].name.as_str());
            return out;
        }
        i = i + 1;
    }
    push_str(&mut out, "Server: ");
    push_str(&mut out, u);
    out
}

/// The heading of the library list: how many music libraries there are.
pub fn libraries_heading(n: usize) -> (r: String)
    ensures
        r@ == "Music libraries ("@ + dec(n as nat) + "):"@,
{
    let mut out = empty_string();
    push_str(&mut out, "Music libraries (");
    push_dec(&mut out, n as u64);
    push_str(&mut out, "):");
    out
}

/// The rows of the library list: each title, marked when it is the
/// active library.
pub open spec fn library_rows_spec(libs: Seq<LibraryEntry>, active: Option<Seq<char>>) -> Seq<(Seq<char>, bool)> {
    libs.map_values(
        |l: LibraryEntry|
            (
                (if active == Some(l.key@) {
                    "* "@
                } else {
                    "  "@
                }) + l.title@,
                active == Some(l.key@),
            ),
    )
}

/// The rows of the library list (label, active); see `library_rows_spec`.
pub fn library_rows(libs: &Vec<LibraryEntry>, active: Option<&str>) -> (r: Vec<(String, bool)>)
    ensures
        r@.map_values(|p: (String, bool)| (p.0@, p.1)) == library_rows_spec(
            libs@,
            match active {
                Some(a) => Some(a@),
                None => None,
            },
        ),
{
    let ghost av = match active {
        Some(a) => Some(a@),
        None => None::<Seq<char>>,
    };
    let mut out: Vec<(String, bool)> = Vec::new();
    let mut i: usize = 0;
    while i < libs.len()
        invariant
            i <= libs@.len(),
            out@.len() == i,
            av == match active {
                Some(a) => Some(a@),
                None => None::<Seq<char>>,
            },
            out@.map_values(|p: (String, bool)| (p.0@, p.1)) =~= library_rows_spec(libs@, av).take(i as int),
        decreases libs@.len() - i,
    {
        let is_active = match active {
            Some(a) => eq_str(libs[i].key.as_str(), a),
            None => false,
        };
        let mut label = empty_string();
        if is_active {
            push_str(&mut label, "* ");
        } else {
            push_str(&mut label, "  ");
        }
        push_str(&mut label, libs[i].title.as_str());
        let ghost before = out@;
        out.push((label, is_active));
        proof {
            assert(is_active == (av == Some(libs@[i as int].key@)));
            assert(out@ == before.push((label, is_active)));
            assert(out@.map_values(|p: (String, bool)| (p.0@, p.1)) =~= before.map_values(
                |p: (String, bool)| (p.0@, p.1),
            ).push((label@, is_active)));
            assert(library_rows_spec(libs@, av).take(i as int + 1) =~= library_rows_spec(libs@, av).take(i as int).push(
                library_rows_spec(libs@, av)[i as int],
            ));
        }
        i = i + 1;
    }
    proof {
        assert(library_rows_spec(libs@, av).take(i as int) =~= library_rows_spec(libs@, av));
    }
    out
}

} // verus!
