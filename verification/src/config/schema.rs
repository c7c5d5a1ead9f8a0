use vstd::prelude::*;

verus! {

/// Calls `uuid::Uuid::new_v4()` and formats it with `to_string`.
/// Trusted: the result is a random version-4 UUID in its hyphenated form, which is
/// 36 characters long; nothing else is stated of it.
#[verifier::external_body]
fn new_uuid_string() -> (s: String)
    ensures
        s@.len() == 36,
{
    uuid::Uuid::new_v4().to_string()
}

/// The default reconnect interval, in seconds.
pub fn default_reconnect_interval() -> (secs: u64)
    ensures
        secs == 5,
{
    5
}

/// Main application configuration
#[derive(Debug)]
pub struct AppConfig {
    pub servers: Vec<ServerConfig>,
    pub settings: SettingsConfig,
}

/// Server connection configuration
#[derive(Debug)]
pub struct ServerConfig {
    pub id: String,
    pub name: String,
    pub host: String,
    pub port: u16,
    pub auth: AuthConfig,
    pub port_forward: PortForwardConfig,
    pub socks5: Option<Socks5Config>,
    pub auto_reconnect: bool,
    pub reconnect_interval: u64,
}

/// Authentication configuration
#[derive(Debug)]
pub struct AuthConfig {
    pub password: String,
}

/// Port forward rules configuration
#[derive(Debug)]
pub struct PortForwardConfig {
    pub local2remote: Vec<Local2RemoteRule>,
    pub remote2local: Vec<Remote2LocalRule>,
}

/// Local to remote forwarding rule
#[derive(Debug)]
pub struct Local2RemoteRule {
    pub id: String,
    pub name: Option<String>,
    pub local_port: u16,
    pub remote_ip: String,
    pub remote_port: u16,
    pub enabled: bool,
}

/// Remote to local forwarding rule
#[derive(Debug)]
pub struct Remote2LocalRule {
    pub id: String,
    pub name: Option<String>,
    pub remote_port: u16,
    pub local_ip: String,
    pub local_port: u16,
    pub enabled: bool,
}

/// SOCKS5 proxy configuration
#[derive(Debug)]
pub struct Socks5Config {
    pub enabled: bool,
    pub port: u16,
    pub username: Option<String>,
    pub password: Option<String>,
    pub local_resolution: bool,
}

/// Application settings
#[derive(Debug)]
pub struct SettingsConfig {
    pub theme: ThemeConfig,
    pub log: LogConfig,
    pub tray: TrayConfig,
}

#[derive(Debug)]
pub struct ThemeConfig {
    pub mode: ThemeMode,
    pub accent_color: String,
}

#[derive(Debug, Clone, Copy, PartialEq, Eq, Structural)]
pub enum ThemeMode {
    System,
    Light,
    Dark,
}

#[derive(Debug)]
pub struct LogConfig {
    pub level: String,
    pub max_size_mb: u32,
}

#[derive(Debug)]
pub struct TrayConfig {
    pub show_on_startup: bool,
    pub minimize_to_tray: bool,
}

impl ServerConfig {
    /// A server entry with a fresh random id, no forwarding rules, no SOCKS5 proxy,
    /// automatic reconnection every 5 seconds
    pub fn new(name: String, host: String, port: u16, password: String) -> (c: Self)
        ensures
            c.id@.len() == 36,
            c.name@ == name@,
            c.host@ == host@,
            c.port == port,
            c.auth.password@ == password@,
            c.port_forward.local2remote@.len() == 0,
            c.port_forward.remote2local@.len() == 0,
            c.socks5 is None,
            c.auto_reconnect,
            c.reconnect_interval == 5,
    {
        ServerConfig {
            id: new_uuid_string(),
            name,
            host,
            port,
            auth: AuthConfig { password },
            port_forward: PortForwardConfig::default(),
            socks5: None,
            auto_reconnect: true,
            reconnect_interval: 5,
        }
    }
}

impl Local2RemoteRule {
    /// An enabled, unnamed rule with a fresh random id
    pub fn new(local_port: u16, remote_ip: String, remote_port: u16) -> (r: Self)
        ensures
            r.id@.len() == 36,
            r.name is None,
            r.local_port == local_port,
            r.remote_ip@ == remote_ip@,
            r.remote_port == remote_port,
            r.enabled,
    {
        Local2RemoteRule {
            id: new_uuid_string(),
            name: None,
            local_port,
            remote_ip,
            remote_port,
            enabled: true,
        }
    }
}

impl Remote2LocalRule {
    /// An enabled, unnamed rule with a fresh random id
    pub fn new(remote_port: u16, local_ip: String, local_port: u16) -> (r: Self)
        ensures
            r.id@.len() == 36,
            r.name is None,
            r.remote_port == remote_port,
            r.local_ip@ == local_ip@,
            r.local_port == local_port,
            r.enabled,
    {
        Remote2LocalRule {
            id: new_uuid_string(),
            name: None,
            remote_port,
            local_ip,
            local_port,
            enabled: true,
        }
    }
}

impl Default for PortForwardConfig {
    fn default() -> (c: Self)
        ensures
            c.local2remote@.len() == 0,
            c.remote2local@.len() == 0,
    {
        PortForwardConfig { local2remote: Vec::new(), remote2local: Vec::new() }
    }
}

impl Default for Socks5Config {
    fn default() -> (c: Self)
        ensures
            c.enabled,
            c.port == 1080,
            c.username is None,
            c.password is None,
            !c.local_resolution,
    {
        Socks5Config {
            enabled: true,
            port: 1080,
            username: None,
            password: None,
            local_resolution: false,
        }
    }
}

impl Default for ThemeMode {
    fn default() -> (m: Self)
        ensures
            m == ThemeMode::System,
    {
        ThemeMode::System
    }
}

impl Default for ThemeConfig {
    fn default() -> (c: Self)
        ensures
            c.mode == ThemeMode::System,
            c.accent_color@ == "#DC2626"@,
    {
        ThemeConfig { mode: ThemeMode::System, accent_color: "#DC2626".to_string() }
    }
}

impl Default for LogConfig {
    fn default() -> (c: Self)
        ensures
            c.level@ == "info"@,
            c.max_size_mb == 10,
    {
        LogConfig { level: "info".to_string(), max_size_mb: 10 }
    }
}

impl Default for TrayConfig {
    fn default() -> (c: Self)
        ensures
            c.show_on_startup,
            c.minimize_to_tray,
    {
        TrayConfig { show_on_startup: true, minimize_to_tray: true }
    }
}

impl Default for SettingsConfig {
    fn default() -> (c: Self)
        ensures
            c.theme.mode == ThemeMode::System,
            c.theme.accent_color@ == "#DC2626"@,
            c.log.level@ == "info"@,
            c.log.max_size_mb == 10,
            c.tray.show_on_startup,
            c.tray.minimize_to_tray,
    {
        SettingsConfig {
            theme: ThemeConfig::default(),
            log: LogConfig::default(),
            tray: TrayConfig::default(),
        }
    }
}

impl Default for AppConfig {
    fn default() -> (c: Self)
        ensures
            c.servers@.len() == 0,
            c.settings.theme.mode == ThemeMode::System,
            c.settings.theme.accent_color@ == "#DC2626"@,
            c.settings.log.level@ == "info"@,
            c.settings.log.max_size_mb == 10,
            c.settings.tray.show_on_startup,
            c.settings.tray.minimize_to_tray,
    {
        AppConfig { servers: Vec::new(), settings: SettingsConfig::default() }
    }
}

impl AppConfig {
    /// The position of the first server whose id is `id`
    pub fn position_of_server(&self, id: &str) -> (r: Option<usize>)
        ensures
            match r {
                Some(i) => i < self.servers@.len() && self.servers@[i as int].id@ == id@ && forall|
                    j: int,
                | 0 <= j < i ==> self.servers@[j].id@ != id@,
                None => forall|j: int| 0 <= j < self.servers@.len() ==> self.servers@[j].id@ != id@,
            },
    {
        let wanted = id.to_string();
        let mut i: usize = 0;
        while i < self.servers.len()
            invariant
                i <= self.servers@.len(),
                wanted@ == id@,
                forall|j: int| 0 <= j < i ==> self.servers@[j].id@ != id@,
            decreases self.servers@.len() - i,
        {
            if self.servers[i].id == wanted {
                return Some(i);
            }
            i = i + 1;
        }
        None
    }

    /// Appends a server
    pub fn add_server(&mut self, server: ServerConfig)
        ensures
            final(self).servers@ == old(self).servers@.push(server),
            final(self).settings == old(self).settings,
    {
        self.servers.push(server);
    }

    /// Replaces the first server with the same id; fails when no server has that id
    pub fn update_server(&mut self, server: ServerConfig) -> (r: Result<(), String>)
        ensures
            final(self).settings == old(self).settings,
            match r {
                Ok(()) => exists|i: int|
                    0 <= i < old(self).servers@.len() && old(self).servers@[i].id@ == server.id@
                        && (forall|j: int| 0 <= j < i ==> old(self).servers@[j].id@ != server.id@)
                        && final(self).servers@ == old(self).servers@.update(i, server),
                Err(msg) => msg@ == "Server not found"@ && final(self).servers@ == old(self).servers@
                    && forall|j: int|
                    0 <= j < old(self).servers@.len() ==> old(self).servers@[j].id@ != server.id@,
            },
    {
        match self.position_of_server(server.id.as_str()) {
            Some(pos) => {
                self.servers.set(pos, server);
                Ok(())
            },
            None => Err("Server not found".to_string()),
        }
    }

    /// Removes every server whose id is `id`, keeping the others in order
    pub fn remove_server(&mut self, id: &str)
        ensures
            final(self).settings == old(self).settings,
            final(self).servers@ == old(self).servers@.filter(|s: ServerConfig| s.id@ != id@),
    {
        let wanted = id.to_string();
        let mut kept: Vec<ServerConfig> = Vec::new();
        let mut old_servers: Vec<ServerConfig> = Vec::new();
        std::mem::swap(&mut old_servers, &mut self.servers);
        let ghost original = old_servers@;
        let total = old_servers.len();
        let mut i: usize = 0;
        while old_servers.len() > 0
            invariant
                wanted@ == id@,
                i + old_servers@.len() == original.len(),
                original.len() == total,
                old_servers@ == original.subrange(i as int, original.len() as int),
                kept@ == original.subrange(0, i as int).filter(|s: ServerConfig| s.id@ != id@),
            decreases old_servers@.len(),
        {
            let s = old_servers.remove(0);
            proof {
                let pre = original.subrange(0, i as int);
                assert(original.subrange(0, i + 1) =~= pre.push(s));
                pre.lemma_filter_push(s, |s: ServerConfig| s.id@ != id@);
            }
            if s.id != wanted {
                kept.push(s);
            }
            i = i + 1;
        }
        assert(original.subrange(0, i as int) =~= original);
        self.servers = kept;
    }

    /// Replaces the application settings
    pub fn update_settings(&mut self, settings: SettingsConfig)
        ensures
            final(self).settings == settings,
            final(self).servers@ == old(self).servers@,
    {
        self.settings = settings;
    }
}

} // verus!
