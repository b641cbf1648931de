use crate::text::{decimal, decimal_text, truth, truth_text};
use crate::types::BldError;
use vstd::prelude::*;
use vstd::string::StringExecFns;
use yaml_rust::Yaml;

verus! {

/// What is reported for a server entry without a name.
pub const NO_SERVER_NAME: &'static str = "Server entry must have a name";

/// What is reported for a server entry without a host.
pub const NO_SERVER_HOST: &'static str = "Server entry must have a host address";

/// What is reported for a server entry without a port.
pub const NO_SERVER_PORT: &'static str = "Server entry must define a port";

/// What is reported where a server takes its credentials from a server that
/// the configuration does not know.
pub const AUTH_INVALID: &'static str = "could not parse auth for server";

/// A node of a parsed YAML document.
#[verifier::external_type_specification]
#[verifier::external_body]
pub struct ExYaml(Yaml);

/// The text entries of a YAML mapping: for each text key whose value is a
/// text, that value. A node that is no mapping has none.
pub uninterp spec fn yaml_strings(yaml: Yaml) -> Map<Seq<char>, Seq<char>>;

/// The integer entries of a YAML mapping: for each text key whose value is
/// an integer, that value. A node that is no mapping has none.
pub uninterp spec fn yaml_integers(yaml: Yaml) -> Map<Seq<char>, i64>;

/// The entry of `entries` under `key`, if there is one.
pub open spec fn entry<V>(entries: Map<Seq<char>, V>, key: Seq<char>) -> Option<V> {
    if entries.contains_key(key) {
        Some(entries[key])
    } else {
        None
    }
}

/// `yaml[key].as_str()` of yaml_rust: indexing a node by a text gives the
/// value under that key where the node is a mapping that has the key, and a
/// bad value else; `as_str` gives the text of a text node and `None` of any
/// other. Trusted: the result is the text entry of the node under `key`.
#[verifier::external_body]
fn yaml_str(yaml: &Yaml, key: &str) -> (found: Option<String>)
    ensures
        match found {
            Some(text) => entry(yaml_strings(*yaml), key@) == Some(text@),
            None => entry(yaml_strings(*yaml), key@) is None,
        },
{
    yaml[key].as_str().map(String::from)
}

/// `yaml[key].as_i64()` of yaml_rust: as `yaml_str`, for a node that holds
/// an integer. Trusted: the result is the integer entry of the node under
/// `key`.
#[verifier::external_body]
fn yaml_i64(yaml: &Yaml, key: &str) -> (found: Option<i64>)
    ensures
        found == entry(yaml_integers(*yaml), key@),
{
    yaml[key].as_i64()
}

/// A server that pipelines can be sent to.
#[derive(Debug, Clone, PartialEq, Eq)]
pub struct BldServerConfig {
    pub name: String,
    pub host: String,
    pub port: i64,
}

impl BldServerConfig {
    /// Whether `config` is what a server entry with these values gives: the
    /// server, where it has a name, a host and a port; else the complaint
    /// about the first of the three that is missing.
    pub open spec fn checked(
        name: Option<Seq<char>>,
        host: Option<Seq<char>>,
        port: Option<i64>,
        config: Result<BldServerConfig, BldError>,
    ) -> bool {
        match config {
            Ok(server) => {
                &&& name == Some(server.name@)
                &&& host == Some(server.host@)
                &&& port == Some(server.port)
            },
            Err(e) => {
                &&& e matches BldError::Other(text)
                &&& text@ == (if name is None {
                    NO_SERVER_NAME@
                } else if host is None {
                    NO_SERVER_HOST@
                } else {
                    NO_SERVER_PORT@
                })
                &&& name is None || host is None || port is None
            },
        }
    }

    /// The server that an entry with these values describes.
    pub fn from_entries(name: Option<String>, host: Option<String>, port: Option<i64>) -> (config: Result<
        BldServerConfig,
        BldError,
    >)
        ensures
            Self::checked(
                match name {
                    Some(text) => Some(text@),
                    None => None,
                },
                match host {
                    Some(text) => Some(text@),
                    None => None,
                },
                port,
                config,
            ),
    {
        let name = match name {
            Some(name) => name,
            None => {
                return Err(BldError::Other(NO_SERVER_NAME.to_owned()));
            },
        };
        let host = match host {
            Some(host) => host,
            None => {
                return Err(BldError::Other(NO_SERVER_HOST.to_owned()));
            },
        };
        let port = match port {
            Some(port) => port,
            None => {
                return Err(BldError::Other(NO_SERVER_PORT.to_owned()));
            },
        };
        Ok(BldServerConfig { name, host, port })
    }

    /// Reads a server from its entry in the configuration: the text under
    /// `server` is its name, the text under `host` its host, the integer
    /// under `port` its port.
    pub fn load(yaml: &Yaml) -> (config: Result<BldServerConfig, BldError>)
        ensures
            Self::checked(
                entry(yaml_strings(*yaml), "server"@),
                entry(yaml_strings(*yaml), "host"@),
                entry(yaml_integers(*yaml), "port"@),
                config,
            ),
    {
        let name = yaml_str(yaml, "server");
        let host = yaml_str(yaml, "host");
        let port = yaml_i64(yaml, "port");
        Self::from_entries(name, host, port)
    }
}

/// The settings of this machine.
#[derive(Debug, Clone, PartialEq, Eq)]
pub struct BldLocalConfig {
    pub enable_server: bool,
    pub host: String,
    pub port: i64,
    pub logs: String,
    pub db: String,
    pub docker_url: String,
}

/// The servers that this machine knows.
#[derive(Debug, Clone, PartialEq, Eq)]
pub struct BldRemoteConfig {
    pub servers: Vec<BldServerConfig>,
}

/// The configuration of the tool.
#[derive(Debug, Clone, PartialEq, Eq)]
pub struct BldConfig {
    pub local: BldLocalConfig,
    pub remote: BldRemoteConfig,
}

/// What each of `lines` says.
pub open spec fn texts(lines: Seq<String>) -> Seq<Seq<char>> {
    Seq::new(lines.len(), |i: int| lines[i]@)
}

/// The address of `path` on a server: `http://`, the host, a colon, the
/// port in decimal, and the path.
pub open spec fn url(host: Seq<char>, port: i64, path: Seq<char>) -> Seq<char> {
    "http://"@ + host + ":"@ + decimal(port as int) + path
}

/// The lines that show the local settings, under their heading.
pub open spec fn local_lines(local: BldLocalConfig) -> Seq<Seq<char>> {
    seq![
        "Local configuration:"@,
        "- enable-server: "@ + truth(local.enable_server),
        "- host: "@ + local.host@,
        "- port: "@ + decimal(local.port as int),
        "- logs: "@ + local.logs@,
        "- db: "@ + local.db@,
        "- docker-url: "@ + local.docker_url@,
    ]
}

/// The lines that show one server.
pub open spec fn server_lines(server: BldServerConfig) -> Seq<Seq<char>> {
    seq!["- name: "@ + server.name@, "- host: "@ + server.host@, "- port: "@ + decimal(server.port as int)]
}

/// The lines that show the servers in turn, with an empty line between two
/// of them.
pub open spec fn servers_lines(servers: Seq<BldServerConfig>) -> Seq<Seq<char>>
    decreases servers.len(),
{
    if servers.len() == 0 {
        Seq::empty()
    } else if servers.len() == 1 {
        server_lines(servers[0])
    } else {
        servers_lines(servers.drop_last()) + seq![Seq::<char>::empty()] + server_lines(servers.last())
    }
}

/// The lines that show the servers, under their heading.
pub open spec fn remote_lines(remote: BldRemoteConfig) -> Seq<Seq<char>> {
    seq!["Remote configuration:"@] + servers_lines(remote.servers@)
}

/// The lines that show the whole configuration: the local settings, an
/// empty line, the servers.
pub open spec fn all_lines(config: BldConfig) -> Seq<Seq<char>> {
    local_lines(config.local) + seq![Seq::<char>::empty()] + remote_lines(config.remote)
}

/// The lines that the listing shows: the local settings where they are
/// asked for; else the servers where they are; else all.
pub open spec fn listed(config: BldConfig, local: bool, remote: bool) -> Seq<Seq<char>> {
    if local {
        local_lines(config.local)
    } else if remote {
        remote_lines(config.remote)
    } else {
        all_lines(config)
    }
}

/// Adds `line` to `lines`.
fn push_line(lines: &mut Vec<String>, line: String)
    ensures
        texts(final(lines)@) == texts(old(lines)@).push(line@),
{
    lines.push(line);
    assert(texts(lines@) =~= texts(old(lines)@).push(line@));
}

/// Adds to `lines` the line made of `label` and `value`.
fn push_labelled(lines: &mut Vec<String>, label: &str, value: &str)
    ensures
        texts(final(lines)@) == texts(old(lines)@).push(label@ + value@),
{
    let mut line = label.to_owned();
    line.append(value);
    push_line(lines, line);
}

/// Adds all of `more` to `lines`.
fn push_lines(lines: &mut Vec<String>, more: Vec<String>)
    ensures
        texts(final(lines)@) == texts(old(lines)@) + texts(more@),
{
    let mut i: usize = 0;
    assert(texts(lines@) =~= texts(old(lines)@) + texts(more@.take(0)));
    while i < more.len()
        invariant
            i <= more@.len(),
            texts(lines@) == texts(old(lines)@) + texts(more@.take(i as int)),
        decreases more@.len() - i,
    {
        let ghost before = texts(lines@);
        push_line(lines, more[i].clone());
        assert(texts(more@.take(i + 1)) =~= texts(more@.take(i as int)).push(more@[i as int]@));
        assert(texts(lines@) =~= texts(old(lines)@) + texts(more@.take(i + 1)));
        i = i + 1;
    }
    assert(more@.take(i as int) =~= more@);
}

/// The lines that show the local settings, under their heading.
pub fn list_locals(local: &BldLocalConfig) -> (lines: Vec<String>)
    ensures
        texts(lines@) == local_lines(*local),
{
    let mut lines: Vec<String> = Vec::new();
    assert(texts(lines@) =~= Seq::<Seq<char>>::empty());
    push_line(&mut lines, "Local configuration:".to_owned());
    push_labelled(&mut lines, "- enable-server: ", truth_text(local.enable_server));
    push_labelled(&mut lines, "- host: ", local.host.as_str());
    push_labelled(&mut lines, "- port: ", decimal_text(local.port).as_str());
    push_labelled(&mut lines, "- logs: ", local.logs.as_str());
    push_labelled(&mut lines, "- db: ", local.db.as_str());
    push_labelled(&mut lines, "- docker-url: ", local.docker_url.as_str());
    assert(texts(lines@) =~= local_lines(*local));
    lines
}

/// The lines that show the servers, under their heading.
pub fn list_remote(remote: &BldRemoteConfig) -> (lines: Vec<String>)
    ensures
        texts(lines@) == remote_lines(*remote),
{
    let mut lines: Vec<String> = Vec::new();
    assert(texts(lines@) =~= Seq::<Seq<char>>::empty());
    push_line(&mut lines, "Remote configuration:".to_owned());
    let mut i: usize = 0;
    assert(remote.servers@.take(0) =~= Seq::<BldServerConfig>::empty());
    assert(texts(lines@) =~= seq!["Remote configuration:"@] + servers_lines(remote.servers@.take(0)));
    while i < remote.servers.len()
        invariant
            i <= remote.servers@.len(),
            texts(lines@) == seq!["Remote configuration:"@] + servers_lines(remote.servers@.take(i as int)),
        decreases remote.servers@.len() - i,
    {
        let server = &remote.servers[i];
        let ghost shown = servers_lines(remote.servers@.take(i as int));
        let ghost upto = remote.servers@.take(i + 1);
        proof {
            assert(upto.drop_last() =~= remote.servers@.take(i as int));
            assert(upto.last() == *server);
            reveal_strlit("");
            assert(""@ =~= Seq::<char>::empty());
        }
        if i > 0 {
            push_line(&mut lines, "".to_owned());
        }
        push_labelled(&mut lines, "- name: ", server.name.as_str());
        push_labelled(&mut lines, "- host: ", server.host.as_str());
        push_labelled(&mut lines, "- port: ", decimal_text(server.port).as_str());
        proof {
            if i == 0 {
                assert(shown =~= Seq::<Seq<char>>::empty());
                assert(upto[0] == *server);
                assert(texts(lines@) =~= seq!["Remote configuration:"@] + server_lines(*server));
            } else {
                assert(texts(lines@) =~= seq!["Remote configuration:"@] + (shown + seq![Seq::<char>::empty()]
                    + server_lines(*server)));
            }
        }
        i = i + 1;
    }
    assert(remote.servers@.take(i as int) =~= remote.servers@);
    lines
}

/// The lines that show the whole configuration.
pub fn list_all(config: &BldConfig) -> (lines: Vec<String>)
    ensures
        texts(lines@) == all_lines(*config),
{
    let mut lines = list_locals(&config.local);
    proof {
        reveal_strlit("");
        assert(""@ =~= Seq::<char>::empty());
    }
    push_line(&mut lines, "".to_owned());
    push_lines(&mut lines, list_remote(&config.remote));
    lines
}

/// The lines that the listing shows, given which part was asked for.
pub fn listing(config: &BldConfig, local: bool, remote: bool) -> (lines: Vec<String>)
    ensures
        texts(lines@) == listed(*config, local, remote),
{
    if local {
        return list_locals(&config.local);
    }
    if remote {
        return list_remote(&config.remote);
    }
    list_all(config)
}

/// The address of `path` on `server`.
pub fn server_url(server: &BldServerConfig, path: &str) -> (address: String)
    ensures
        address@ == url(server.host@, server.port, path@),
{
    let mut address = "http://".to_owned();
    address.append(server.host.as_str());
    address.append(":");
    address.append(decimal_text(server.port).as_str());
    address.append(path);
    address
}

/// The place of the first of `servers` that is called `name`, if any is.
pub fn find_server(servers: &Vec<BldServerConfig>, name: &str) -> (place: Option<usize>)
    ensures
        match place {
            Some(i) => {
                &&& i < servers@.len()
                &&& servers@[i as int].name@ == name@
                &&& forall|j: int| 0 <= j < i ==> (#[trigger] servers@[j]).name@ != name@
            },
            None => forall|j: int| 0 <= j < servers@.len() ==> (#[trigger] servers@[j]).name@ != name@,
        },
{
    let wanted = name.to_owned();
    let mut i: usize = 0;
    while i < servers.len()
        invariant
            i <= servers@.len(),
            wanted@ == name@,
            forall|j: int| 0 <= j < i ==> (#[trigger] servers@[j]).name@ != name@,
        decreases servers@.len() - i,
    {
        if servers[i].name.eq(&wanted) {
            return Some(i);
        }
        i = i + 1;
    }
    None
}

/// The place of the server whose credentials the server at `server` uses:
/// its own, unless it names another to share them with; that other has to
/// be known.
pub fn auth_source(servers: &Vec<BldServerConfig>, server: usize, same_auth_as: Option<&str>) -> (source: Result<
    usize,
    BldError,
>)
    ensures
        match same_auth_as {
            None => source == Ok::<usize, BldError>(server),
            Some(name) => match source {
                Ok(i) => {
                    &&& i < servers@.len()
                    &&& servers@[i as int].name@ == name@
                    &&& forall|j: int| 0 <= j < i ==> (#[trigger] servers@[j]).name@ != name@
                },
                Err(e) => {
                    &&& forall|j: int| 0 <= j < servers@.len() ==> (#[trigger] servers@[j]).name@ != name@
                    &&& e matches BldError::Other(text)
                    &&& text@ == AUTH_INVALID@
                },
            },
        },
{
    match same_auth_as {
        None => Ok(server),
        Some(name) => match find_server(servers, name) {
            Some(i) => Ok(i),
            None => Err(BldError::Other(AUTH_INVALID.to_owned())),
        },
    }
}

} // verus!