//! The server's settings.

use vstd::prelude::*;
use vstd::string::*;

use crate::client::config::seconds_option;

verus! {

/// The options that the server knows.
#[derive(Debug)]
pub struct Config {
    /// Where the process number is written when the server runs in the background.
    pub pidfile: String,
    /// The server's working directory, which holds the files directory.
    pub workdir: String,
    /// The root of the stored content.
    pub filesdir: String,
    pub daemonize: bool,
    pub hz: u32,
    /// The hosts to listen on; none means the local host.
    pub bind: Vec<String>,
    pub port: u16,
    /// Seconds between keep-alive probes; 0 for none.
    pub tcp_keepalive: u32,
    pub tcp_backlog: i32,
    /// Seconds that a read or a write may take; 0 for no limit.
    pub timeout: u64,
    pub unixsocket: Option<String>,
    pub unixsocketperm: u32,
    pub syslog_enabled: bool,
    pub syslog_ident: String,
    pub syslog_facility: String,
}

impl Config {
    /// The settings of a server that listens on `port` and is otherwise as shipped.
    pub open spec fn is_default(self, port: u16) -> bool {
        &&& self.pidfile@ == "/var/run/irbis/ifsd.pid"@
        &&& self.workdir@ == "/srv/irbisfs/content"@
        &&& self.filesdir@ == "/srv/irbisfs/content/files"@
        &&& !self.daemonize
        &&& self.hz == 10
        &&& self.bind@.len() == 0
        &&& self.port == port
        &&& self.tcp_keepalive == 0
        &&& self.tcp_backlog == 511
        &&& self.timeout == 0
        &&& self.unixsocket is None
        &&& self.unixsocketperm == 0o700
        &&& !self.syslog_enabled
        &&& self.syslog_ident@ == "ifsd"@
        &&& self.syslog_facility@ == "local0"@
    }

    /// The settings as shipped, for a server on `port`.
    pub fn default(port: u16) -> (config: Config)
        ensures
            config.is_default(port),
    {
        Config {
            pidfile: "/var/run/irbis/ifsd.pid".to_owned(),
            workdir: "/srv/irbisfs/content".to_owned(),
            filesdir: "/srv/irbisfs/content/files".to_owned(),
            daemonize: false,
            hz: 10,
            bind: Vec::new(),
            port: port,
            tcp_keepalive: 0,
            tcp_backlog: 511,
            timeout: 0,
            unixsocket: None,
            unixsocketperm: 0o700,
            syslog_enabled: false,
            syslog_ident: "ifsd".to_owned(),
            syslog_facility: "local0".to_owned(),
        }
    }

    /// The settings as shipped, on port 1313.
    pub fn new() -> (config: Config)
        ensures
            config.is_default(1313),
    {
        Self::default(1313)
    }

    /// The hosts to listen on, each with the port: those of `bind`, or the local host
    /// where `bind` names none.
    pub open spec fn listens_on(self, addresses: Seq<(String, u16)>) -> bool {
        if self.bind@.len() == 0 {
            addresses.len() == 1 && addresses[0].0@ == "127.0.0.1"@ && addresses[0].1
                == self.port
        } else {
            addresses.len() == self.bind@.len() && forall|i: int|
                0 <= i < addresses.len() ==> (#[trigger] addresses[i]).0@ == self.bind@[i]@
                    && addresses[i].1 == self.port
        }
    }

    /// The hosts to listen on, each with the port.
    pub fn addresses(&self) -> (addresses: Vec<(String, u16)>)
        ensures
            self.listens_on(addresses@),
    {
        let mut addresses: Vec<(String, u16)> = Vec::new();
        if self.bind.len() == 0 {
            addresses.push(("127.0.0.1".to_owned(), self.port));
            return addresses;
        }
        let mut i: usize = 0;
        while i < self.bind.len()
            invariant
                i <= self.bind.len(),
                addresses@.len() == i,
                forall|j: int|
                    0 <= j < i ==> (#[trigger] addresses@[j]).0@ == self.bind@[j]@
                        && addresses@[j].1 == self.port,
            decreases self.bind.len() - i,
        {
            addresses.push((self.bind[i].clone(), self.port));
            i += 1;
        }
        addresses
    }

    /// The keep-alive time to set on a stream, in seconds.
    pub fn keepalive(&self) -> (seconds: Option<u64>)
        ensures
            seconds == seconds_option(self.tcp_keepalive as u64),
    {
        if self.tcp_keepalive > 0 {
            Some(self.tcp_keepalive as u64)
        } else {
            None
        }
    }

    /// The time limit to set on a stream's reads and writes, in seconds.
    pub fn stream_timeout(&self) -> (seconds: Option<u64>)
        ensures
            seconds == seconds_option(self.timeout),
    {
        if self.timeout > 0 {
            Some(self.timeout)
        } else {
            None
        }
    }
}

} // verus!
