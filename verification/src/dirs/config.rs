use crate::config::constants::{DEFAULT_HTTP_PORT, DEFAULT_PRIVATE_IP, DEFAULT_SOCKET_PORT};
use crate::utils::error::{Error, ErrorKind, Result};
use vstd::prelude::*;
use vstd::string::StringExecFns;

verus! {

/// The settings of a party.
#[derive(Debug)]
pub struct Config {
    pub path: PathConfig,
    pub server: Vec<ServerConfig>,
}

/// Where the identity keys lie and where received files go.
#[derive(Debug)]
pub struct PathConfig {
    pub keys_path: String,
    pub download_path: String,
}

/// One relay.
#[derive(Debug)]
pub struct ServerConfig {
    pub server_name: String,
    pub default: bool,
    pub server_ip: String,
    pub http_port: u16,
    pub socket_port: u16,
}

impl Clone for ServerConfig {
    fn clone(&self) -> (copy: Self)
        ensures
            copy == *self,
    {
        ServerConfig {
            server_name: self.server_name.clone(),
            default: self.default,
            server_ip: self.server_ip.clone(),
            http_port: self.http_port,
            socket_port: self.socket_port,
        }
    }
}

impl Clone for PathConfig {
    fn clone(&self) -> (copy: Self)
        ensures
            copy == *self,
    {
        PathConfig { keys_path: self.keys_path.clone(), download_path: self.download_path.clone() }
    }
}

impl Clone for Config {
    fn clone(&self) -> (copy: Self)
        ensures
            copy.path == self.path,
            copy.server@ == self.server@,
    {
        Config { path: self.path.clone(), server: copy_servers(&self.server) }
    }
}

/// A path with one more component: the separator `/` stands between them
/// unless the path is empty or ends in one already.
pub open spec fn spec_join(base: Seq<char>, name: Seq<char>) -> Seq<char> {
    if base.len() == 0 || base.last() == '/' {
        base + name
    } else {
        base + seq!['/'] + name
    }
}

/// The relay of a fresh configuration: it is called `my_server`, is the
/// default, and listens on the usual ports at `server_ip`.
pub open spec fn spec_is_first_server(server: ServerConfig, server_ip: Seq<char>) -> bool {
    &&& server.server_name@ == "my_server"@
    &&& server.default
    &&& server.server_ip@ == server_ip
    &&& server.http_port == DEFAULT_HTTP_PORT
    &&& server.socket_port == DEFAULT_SOCKET_PORT
}

/// The index of the first relay called `name`, or the number of relays where
/// none is.
pub open spec fn spec_index_of_name(servers: Seq<ServerConfig>, name: Seq<char>) -> int
    decreases servers.len(),
{
    if servers.len() == 0 {
        0
    } else if servers[0].server_name@ == name {
        0
    } else {
        1 + spec_index_of_name(servers.drop_first(), name)
    }
}

/// The index of the first default relay, or the number of relays where none
/// is.
pub open spec fn spec_index_of_default(servers: Seq<ServerConfig>) -> int
    decreases servers.len(),
{
    if servers.len() == 0 {
        0
    } else if servers[0].default {
        0
    } else {
        1 + spec_index_of_default(servers.drop_first())
    }
}

/// The relays without those called `name`, in their order.
pub open spec fn spec_without_name(servers: Seq<ServerConfig>, name: Seq<char>) -> Seq<
    ServerConfig,
> {
    servers.filter(|s: ServerConfig| s.server_name@ != name)
}

/// The same relay, no longer the default.
pub open spec fn spec_not_default(server: ServerConfig) -> ServerConfig {
    ServerConfig {
        server_name: server.server_name,
        default: false,
        server_ip: server.server_ip,
        http_port: server.http_port,
        socket_port: server.socket_port,
    }
}

/// Whether no two relays share a name.
pub open spec fn spec_unique_names(servers: Seq<ServerConfig>) -> bool {
    forall|i: int, j: int|
        0 <= i < j < servers.len() ==> (#[trigger] servers[i]).server_name@ != (
        #[trigger] servers[j]).server_name@
}

/// Whether at most one relay is the default.
pub open spec fn spec_at_most_one_default(servers: Seq<ServerConfig>) -> bool {
    forall|i: int, j: int|
        0 <= i < j < servers.len() ==> !((#[trigger] servers[i]).default && (
        #[trigger] servers[j]).default)
}

/// The text of the error for a relay name that the configuration lacks.
pub open spec fn spec_relay_not_found_message(name: Seq<char>) -> Seq<char> {
    "Relay server '"@ + name + "' not found in config"@
}

/// The text of the error for a relay name that the configuration has already.
pub open spec fn spec_already_exists_message(name: Seq<char>) -> Seq<char> {
    "Server '"@ + name + "' already exists"@
}

/// The first index at which a relay is called `name` is in range exactly
/// where some relay is called so, and no earlier relay is called so.
pub proof fn lemma_index_of_name(servers: Seq<ServerConfig>, name: Seq<char>)
    ensures
        0 <= spec_index_of_name(servers, name) <= servers.len(),
        spec_index_of_name(servers, name) < servers.len() ==> servers[spec_index_of_name(
            servers,
            name,
        )].server_name@ == name,
        forall|i: int|
            0 <= i < spec_index_of_name(servers, name) ==> (#[trigger] servers[i]).server_name@
                != name,
    decreases servers.len(),
{
    if servers.len() > 0 && servers[0].server_name@ != name {
        let rest = servers.drop_first();
        lemma_index_of_name(rest, name);
        let k = spec_index_of_name(rest, name);
        assert forall|i: int| 0 <= i < 1 + k implies (#[trigger] servers[i]).server_name@
            != name by {
            if i > 0 {
                assert(servers[i] == rest[i - 1]);
            }
        }
        if k < rest.len() {
            assert(servers[1 + k] == rest[k]);
        }
    }
}

/// The first index at which a relay is the default is in range exactly where
/// some relay is the default, and no earlier relay is.
pub proof fn lemma_index_of_default(servers: Seq<ServerConfig>)
    ensures
        0 <= spec_index_of_default(servers) <= servers.len(),
        spec_index_of_default(servers) < servers.len() ==> servers[spec_index_of_default(
            servers,
        )].default,
        forall|i: int| 0 <= i < spec_index_of_default(servers) ==> !(#[trigger] servers[i]).default,
    decreases servers.len(),
{
    if servers.len() > 0 && !servers[0].default {
        let rest = servers.drop_first();
        lemma_index_of_default(rest);
        let k = spec_index_of_default(rest);
        assert forall|i: int| 0 <= i < 1 + k implies !(#[trigger] servers[i]).default by {
            if i > 0 {
                assert(servers[i] == rest[i - 1]);
            }
        }
        if k < rest.len() {
            assert(servers[1 + k] == rest[k]);
        }
    }
}

/// Where no relay but the one at `index` is called `name`, the relays without
/// those called `name` are the relays without the one at `index`.
pub proof fn lemma_without_unique_name(servers: Seq<ServerConfig>, name: Seq<char>, index: int)
    requires
        0 <= index < servers.len(),
        forall|i: int|
            0 <= i < servers.len() ==> ((#[trigger] servers[i]).server_name@ == name <==> i
                == index),
    ensures
        spec_without_name(servers, name) == servers.remove(index),
    decreases servers.len(),
{
    reveal(Seq::filter);
    let keep = |s: ServerConfig| s.server_name@ != name;
    let front = servers.drop_last();
    if index == servers.len() - 1 {
        lemma_without_absent_name(front, name);
        assert(servers.remove(index) =~= front);
    } else {
        assert forall|i: int| 0 <= i < front.len() implies ((#[trigger] front[i]).server_name@
            == name <==> i == index) by {
            assert(front[i] == servers[i]);
        }
        lemma_without_unique_name(front, name, index);
        assert(keep(servers.last()));
        assert(servers.remove(index) =~= front.remove(index).push(servers.last()));
    }
}

/// Where no relay is called `name`, the relays without those called `name`
/// are all relays.
pub proof fn lemma_without_absent_name(servers: Seq<ServerConfig>, name: Seq<char>)
    requires
        forall|i: int| 0 <= i < servers.len() ==> (#[trigger] servers[i]).server_name@ != name,
    ensures
        spec_without_name(servers, name) == servers,
    decreases servers.len(),
{
    reveal(Seq::filter);
    if servers.len() > 0 {
        let front = servers.drop_last();
        assert forall|i: int| 0 <= i < front.len() implies (#[trigger] front[i]).server_name@
            != name by {
            assert(front[i] == servers[i]);
        }
        lemma_without_absent_name(front, name);
        assert(servers.last() == servers[servers.len() - 1]);
        assert(front.push(servers.last()) =~= servers);
    }
}

/// The index of the first relay called `name`, or the number of relays.
fn index_of_name(servers: &Vec<ServerConfig>, name: &String) -> (index: usize)
    ensures
        index == spec_index_of_name(servers@, name@),
        index <= servers@.len(),
{
    let mut i: usize = 0;
    assert(servers@.skip(0) =~= servers@);
    while i < servers.len()
        invariant
            i <= servers@.len(),
            spec_index_of_name(servers@, name@) == i + spec_index_of_name(
                servers@.skip(i as int),
                name@,
            ),
        decreases servers@.len() - i,
    {
        let ghost rest = servers@.skip(i as int);
        assert(rest[0] == servers@[i as int]);
        assert(rest.drop_first() =~= servers@.skip(i + 1));
        if servers[i].server_name == *name {
            return i;
        }
        i = i + 1;
    }
    assert(servers@.skip(i as int).len() == 0);
    i
}

/// The index of the first default relay, or the number of relays.
fn index_of_default(servers: &Vec<ServerConfig>) -> (index: usize)
    ensures
        index == spec_index_of_default(servers@),
        index <= servers@.len(),
{
    let mut i: usize = 0;
    assert(servers@.skip(0) =~= servers@);
    while i < servers.len()
        invariant
            i <= servers@.len(),
            spec_index_of_default(servers@) == i + spec_index_of_default(servers@.skip(i as int)),
        decreases servers@.len() - i,
    {
        let ghost rest = servers@.skip(i as int);
        assert(rest[0] == servers@[i as int]);
        assert(rest.drop_first() =~= servers@.skip(i + 1));
        if servers[i].default {
            return i;
        }
        i = i + 1;
    }
    assert(servers@.skip(i as int).len() == 0);
    i
}

/// A copy of the relays.
fn copy_servers(servers: &Vec<ServerConfig>) -> (copy: Vec<ServerConfig>)
    ensures
        copy@ == servers@,
{
    let mut copy: Vec<ServerConfig> = Vec::new();
    let mut i: usize = 0;
    while i < servers.len()
        invariant
            i <= servers@.len(),
            copy@ == servers@.take(i as int),
        decreases servers@.len() - i,
    {
        copy.push(servers[i].clone());
        assert(copy@ =~= servers@.take(i + 1));
        i = i + 1;
    }
    assert(servers@.take(i as int) =~= servers@);
    copy
}

/// A path with one more component.
pub fn join_path(base: &str, name: &str) -> (path: String)
    ensures
        path@ == spec_join(base@, name@),
{
    proof {
        reveal_strlit("/");
    }
    let len: usize = base.unicode_len();
    if len == 0 {
        let path: String = String::from_str(base).concat(name);
        assert(path@ =~= spec_join(base@, name@));
        path
    } else if base.get_char(len - 1) == '/' {
        String::from_str(base).concat(name)
    } else {
        let path: String = String::from_str(base).concat("/").concat(name);
        assert(path@ =~= spec_join(base@, name@));
        path
    }
}

impl Config {
    /// Whether the relays can be told apart: no two share a name, and at
    /// most one is the default.
    pub open spec fn wf(&self) -> bool {
        &&& spec_unique_names(self.server@)
        &&& spec_at_most_one_default(self.server@)
    }

    /// The configuration of a party that has just been set up: the keys lie
    /// at `key_path`, received files go to `rshare/downloads` under the home
    /// directory (under `.` where there is none), and the only relay is the
    /// default one on this machine's address (on the loopback address where
    /// it has none).
    pub fn create_config(
        key_path: String,
        home_dir: Option<String>,
        local_ip: Option<String>,
    ) -> (config: Config)
        ensures
            config.path.keys_path@ == key_path@,
            config.path.download_path@ == spec_join(
                spec_join(
                    match home_dir {
                        Some(home) => home@,
                        None => "."@,
                    },
                    "rshare"@,
                ),
                "downloads"@,
            ),
            config.server@.len() == 1,
            config.wf(),
            spec_is_first_server(
                config.server@[0],
                match local_ip {
                    Some(ip) => ip@,
                    None => DEFAULT_PRIVATE_IP@,
                },
            ),
    {
        let home: String = match home_dir {
            Some(home) => home,
            None => String::from_str("."),
        };
        let download_path: String = join_path(
            join_path(home.as_str(), "rshare").as_str(),
            "downloads",
        );
        let mut server: Vec<ServerConfig> = Vec::new();
        server.push(get_default_server_config(local_ip));
        Config { path: PathConfig { keys_path: key_path, download_path }, server }
    }

    /// Picks the relay of a transfer: the first one called `name`, or the
    /// first default one where no name is given.
    pub fn select_server(&self, name: Option<String>) -> (result: Result<ServerConfig>)
        ensures
            match name {
                Some(n) => {
                    let i = spec_index_of_name(self.server@, n@);
                    match result {
                        Ok(server) => i < self.server@.len() && server == self.server@[i],
                        Err(e) => i == self.server@.len() && e.is(
                            ErrorKind::InvalidInput,
                            spec_relay_not_found_message(n@),
                        ),
                    }
                },
                None => {
                    let i = spec_index_of_default(self.server@);
                    match result {
                        Ok(server) => i < self.server@.len() && server == self.server@[i],
                        Err(e) => i == self.server@.len() && e.is(
                            ErrorKind::InvalidInput,
                            "No default server in config"@,
                        ),
                    }
                },
            },
    {
        match name {
            Some(server_name) => {
                let i: usize = index_of_name(&self.server, &server_name);
                if i < self.server.len() {
                    Ok(self.server[i].clone())
                } else {
                    let message: String = String::from_str("Relay server '").concat(
                        server_name.as_str(),
                    ).concat("' not found in config");
                    Err(Error::InvalidInput(message))
                }
            },
            None => {
                let i: usize = index_of_default(&self.server);
                if i < self.server.len() {
                    Ok(self.server[i].clone())
                } else {
                    Err(Error::InvalidInput(String::from_str("No default server in config")))
                }
            },
        }
    }
}

/// The relay of a fresh configuration.
fn get_default_server_config(local_ip: Option<String>) -> (server: ServerConfig)
    ensures
        spec_is_first_server(
            server,
            match local_ip {
                Some(ip) => ip@,
                None => DEFAULT_PRIVATE_IP@,
            },
        ),
{
    let server_ip: String = match local_ip {
        Some(ip) => ip,
        None => String::from_str(DEFAULT_PRIVATE_IP),
    };
    ServerConfig {
        server_name: String::from_str("my_server"),
        default: true,
        server_ip,
        http_port: DEFAULT_HTTP_PORT,
        socket_port: DEFAULT_SOCKET_PORT,
    }
}

/// The first default relay of a configuration.
pub fn get_default_server(config: &Config) -> (result: Result<ServerConfig>)
    ensures
        match result {
            Ok(server) => spec_index_of_default(config.server@) < config.server@.len() && server
                == config.server@[spec_index_of_default(config.server@)],
            Err(e) => spec_index_of_default(config.server@) == config.server@.len() && e.is(
                ErrorKind::InvalidInput,
                "No default server found"@,
            ),
        },
{
    let i: usize = index_of_default(&config.server);
    if i < config.server.len() {
        Ok(config.server[i].clone())
    } else {
        Err(Error::InvalidInput(String::from_str("No default server found")))
    }
}

/// Where the configuration file lies: `.rshare/config.toml` under the home
/// directory.
pub fn get_config_path(home_dir: Option<&str>) -> (result: Result<String>)
    ensures
        match home_dir {
            Some(home) => result matches Ok(path) && path@ == spec_join(
                spec_join(home@, ".rshare"@),
                "config.toml"@,
            ),
            None => result matches Err(e) && e.is(
                ErrorKind::FileError,
                "Could not find home directory"@,
            ),
        },
{
    match home_dir {
        Some(home) => Ok(join_path(join_path(home, ".rshare").as_str(), "config.toml")),
        None => Err(Error::FileError(String::from_str("Could not find home directory"))),
    }
}

/// Adds a relay to the configuration. A relay whose name is taken is
/// refused and the configuration stays as it was. A relay that comes as the
/// default takes that role from all others.
pub fn add_server(config: &mut Config, server: &ServerConfig) -> (result: Result<()>)
    ensures
        final(config).path == old(config).path,
        old(config).wf() ==> final(config).wf(),
        match result {
            Ok(()) => {
                &&& spec_index_of_name(old(config).server@, server.server_name@) == old(
                    config,
                ).server@.len()
                &&& final(config).server@ == (if server.default {
                    old(config).server@.map_values(|s: ServerConfig| spec_not_default(s))
                } else {
                    old(config).server@
                }).push(*server)
            },
            Err(e) => {
                &&& spec_index_of_name(old(config).server@, server.server_name@) < old(
                    config,
                ).server@.len()
                &&& e.is(
                    ErrorKind::InvalidInput,
                    spec_already_exists_message(server.server_name@),
                )
                &&& final(config).server@ == old(config).server@
            },
        },
{
    let found: usize = index_of_name(&config.server, &server.server_name);
    if found < config.server.len() {
        let message: String = String::from_str("Server '").concat(
            server.server_name.as_str(),
        ).concat("' already exists");
        return Err(Error::InvalidInput(message));
    }
    if server.default {
        let ghost before = config.server@;
        let mut i: usize = 0;
        while i < config.server.len()
            invariant
                i <= config.server@.len(),
                config.server@.len() == before.len(),
                config.path == old(config).path,
                forall|j: int| 0 <= j < i ==> config.server@[j] == spec_not_default(before[j]),
                forall|j: int| i <= j < before.len() ==> config.server@[j] == before[j],
            decreases config.server@.len() - i,
        {
            let current: &ServerConfig = &config.server[i];
            let cleared: ServerConfig = ServerConfig {
                server_name: current.server_name.clone(),
                default: false,
                server_ip: current.server_ip.clone(),
                http_port: current.http_port,
                socket_port: current.socket_port,
            };
            config.server.set(i, cleared);
            i = i + 1;
        }
        assert(config.server@ =~= before.map_values(|s: ServerConfig| spec_not_default(s)));
    }
    config.server.push(server.clone());
    proof {
        let before = old(config).server@;
        let after = config.server@;
        lemma_index_of_name(before, server.server_name@);
        assert forall|i: int| 0 <= i < before.len() implies (#[trigger] after[i]).server_name@
            == before[i].server_name@ && (after[i].default ==> before[i].default
            && !server.default) by {}
        if old(config).wf() {
            assert forall|i: int, j: int| 0 <= i < j < after.len() implies (
            #[trigger] after[i]).server_name@ != (#[trigger] after[j]).server_name@ by {
                if j < before.len() {
                    assert(before[i].server_name@ != before[j].server_name@);
                } else {
                    assert(before[i].server_name@ != server.server_name@);
                }
            }
            assert forall|i: int, j: int| 0 <= i < j < after.len() implies !((
            #[trigger] after[i]).default && (#[trigger] after[j]).default) by {
                if j < before.len() {
                    assert(!(before[i].default && before[j].default));
                }
            }
        }
    }
    Ok(())
}

/// The relays of a configuration, in their order.
pub fn list_servers(config: &Config) -> (result: Result<Vec<ServerConfig>>)
    ensures
        result matches Ok(servers) && servers@ == config.server@,
{
    Ok(copy_servers(&config.server))
}

/// Removes from the configuration every relay called `target` and returns
/// the first of them. The default relay cannot be removed; then, and where
/// no relay is called so, the configuration stays as it was.
pub fn remove_server(config: &mut Config, target: String) -> (result: Result<ServerConfig>)
    ensures
        final(config).path == old(config).path,
        old(config).wf() ==> final(config).wf(),
        ({
            let servers = old(config).server@;
            let i = spec_index_of_name(servers, target@);
            match result {
                Ok(removed) => {
                    &&& i < servers.len()
                    &&& !servers[i].default
                    &&& removed == servers[i]
                    &&& final(config).server@ == spec_without_name(servers, target@)
                    &&& old(config).wf() ==> final(config).server@ == servers.remove(i)
                },
                Err(e) => {
                    &&& final(config).server@ == servers
                    &&& e.spec_kind() == ErrorKind::InvalidInput
                    &&& if i < servers.len() {
                        servers[i].default && e.spec_message() == "Cannot remove default server"@
                    } else {
                        e.spec_message() == "Server not found"@
                    }
                },
            }
        }),
{
    let found: usize = index_of_name(&config.server, &target);
    if found >= config.server.len() {
        return Err(Error::InvalidInput(String::from_str("Server not found")));
    }
    if config.server[found].default {
        return Err(Error::InvalidInput(String::from_str("Cannot remove default server")));
    }
    let removed: ServerConfig = config.server[found].clone();
    let ghost before = config.server@;
    let mut kept: Vec<ServerConfig> = Vec::new();
    let mut i: usize = 0;
    while i < config.server.len()
        invariant
            i <= config.server@.len(),
            config.server@ == before,
            config.path == old(config).path,
            kept@ == spec_without_name(before.take(i as int), target@),
        decreases config.server@.len() - i,
    {
        proof {
            let step = before.take(i + 1);
            assert(step.drop_last() =~= before.take(i as int));
            assert(step.last() == before[i as int]);
            reveal(Seq::filter);
        }
        if config.server[i].server_name != target {
            kept.push(config.server[i].clone());
        }
        i = i + 1;
    }
    assert(before.take(i as int) =~= before);
    config.server = kept;
    proof {
        if old(config).wf() {
            let index = found as int;
            lemma_index_of_name(before, target@);
            assert forall|k: int| 0 <= k < before.len() implies ((
            #[trigger] before[k]).server_name@ == target@ <==> k == index) by {
                if k < index {
                    assert(before[k].server_name@ != before[index].server_name@);
                }
                if index < k {
                    assert(before[index].server_name@ != before[k].server_name@);
                }
            }
            lemma_without_unique_name(before, target@, index);
            let after = before.remove(index);
            assert forall|a: int, b: int| 0 <= a < b < after.len() implies (
            #[trigger] after[a]).server_name@ != (#[trigger] after[b]).server_name@ by {
                let a0 = if a < index { a } else { a + 1 };
                let b0 = if b < index { b } else { b + 1 };
                assert(before[a0].server_name@ != before[b0].server_name@);
            }
            assert forall|a: int, b: int| 0 <= a < b < after.len() implies !((
            #[trigger] after[a]).default && (#[trigger] after[b]).default) by {
                let a0 = if a < index { a } else { a + 1 };
                let b0 = if b < index { b } else { b + 1 };
                assert(!(before[a0].default && before[b0].default));
            }
        }
    }
    Ok(removed)
}

} // verus!
