//! The manager's configuration, its register of handlers, and the plan by
//! which it starts the HTTP server.
use vstd::hash_map::StringHashMap;
use vstd::prelude::*;

verus! {

/// What the authentication of requests needs: the API key.
#[derive(Debug, Clone, PartialEq, Eq)]
pub struct Config {
    pub api_key: String,
}

impl Config {
    /// A configuration with API key `api_key`.
    pub fn new(api_key: String) -> (config: Config)
        ensures
            config.api_key == api_key,
    {
        Config { api_key }
    }
}

/// The keep-alive of HTTP connections, in seconds, when none is configured.
pub const DEFAULT_KEEP_ALIVE_SECS: i32 = 5;

/// The settings of the service and the register of its handlers.
pub struct Manager {
    /// How many requests the server processes at once.
    pub nr_requests: i32,
    /// The key requests must carry in their `Authorization` header.
    pub api_key: String,
    /// The server certificate (PEM), for TLS.
    pub cert_path: Option<String>,
    /// The server's private key (PEM), for TLS.
    pub key_path: Option<String>,
    /// The certificate authority that client certificates must chain to.
    pub ca_path: Option<String>,
    /// The common names of the clients allowed to connect.
    pub allowed_names: Option<Vec<String>>,
    /// The keep-alive of HTTP connections, in seconds.
    pub keep_alive: Option<i32>,
    /// Debug logging.
    pub activate_debug: bool,
    /// Do not start the HTTP server (handlers still listen on the bus).
    pub ignore_server_init: bool,
    /// The Redis server for pub/sub across services.
    pub redis_url: Option<String>,
    /// The registered handlers, each with its number of replicas.
    pub number_replicas: StringHashMap<i32>,
}

/// The same settings, whatever the handlers.
pub open spec fn same_settings(a: &Manager, b: &Manager) -> bool {
    &&& a.nr_requests == b.nr_requests
    &&& a.api_key == b.api_key
    &&& a.cert_path == b.cert_path
    &&& a.key_path == b.key_path
    &&& a.ca_path == b.ca_path
    &&& a.allowed_names == b.allowed_names
    &&& a.keep_alive == b.keep_alive
    &&& a.activate_debug == b.activate_debug
    &&& a.ignore_server_init == b.ignore_server_init
    &&& a.redis_url == b.redis_url
}

/// How the server speaks TLS.
#[derive(Debug, Clone, PartialEq, Eq)]
pub enum TlsPlan {
    /// Plain HTTP.
    Plain,
    /// TLS with this certificate and key; clients are not authenticated.
    ServerOnly { cert_path: String, key_path: String },
    /// TLS with client certificates that must chain to the authority at
    /// `ca_path` and, when names are given, carry one of them.
    ClientAuth {
        cert_path: String,
        key_path: String,
        ca_path: String,
        allowed_names: Option<Vec<String>>,
    },
}

/// How the HTTP server is set up when the manager starts.
#[derive(Debug, Clone, PartialEq, Eq)]
pub struct ServerPlan {
    pub tls: TlsPlan,
    /// The keep-alive, in seconds.
    pub keep_alive_secs: i32,
    /// The log filter: `debug` or `info`.
    pub log_level: String,
    /// How many requests are processed at once.
    pub max_requests: i32,
    /// The API key requests must carry.
    pub api_key: String,
    /// The Redis URL stored in the shared state (empty when none is set).
    pub redis_url: String,
}

impl Manager {
    /// The handlers registered, each with its number of replicas.
    pub open spec fn handlers(&self) -> Map<Seq<char>, i32> {
        self.number_replicas@
    }

    /// A manager with the given settings and no handler.
    pub fn new(
        nr_requests: i32,
        api_key: String,
        cert_path: Option<String>,
        key_path: Option<String>,
        ca_path: Option<String>,
        allowed_names: Option<Vec<String>>,
        keep_alive: Option<i32>,
        activate_debug: bool,
        redis_url: Option<String>,
    ) -> (manager: Manager)
        ensures
            manager.nr_requests == nr_requests,
            manager.api_key == api_key,
            manager.cert_path == cert_path,
            manager.key_path == key_path,
            manager.ca_path == ca_path,
            manager.allowed_names == allowed_names,
            manager.keep_alive == keep_alive,
            manager.activate_debug == activate_debug,
            !manager.ignore_server_init,
            manager.redis_url == redis_url,
            manager.handlers() == Map::<Seq<char>, i32>::empty(),
    {
        Manager {
            nr_requests,
            api_key,
            cert_path,
            key_path,
            ca_path,
            allowed_names,
            keep_alive,
            activate_debug,
            ignore_server_init: false,
            redis_url,
            number_replicas: StringHashMap::new(),
        }
    }

    /// A manager with the default settings: one request at a time, no API
    /// key, no TLS, no allowed names, the default keep-alive, no debug
    /// logging, the server started, no Redis, and no handler.
    pub fn new_default() -> (manager: Manager)
        ensures
            manager.nr_requests == 1,
            manager.api_key@ == Seq::<char>::empty(),
            manager.cert_path is None,
            manager.key_path is None,
            manager.ca_path is None,
            manager.allowed_names is None,
            manager.keep_alive is None,
            !manager.activate_debug,
            !manager.ignore_server_init,
            manager.redis_url is None,
            manager.handlers() == Map::<Seq<char>, i32>::empty(),
    {
        Manager::new(1, String::new(), None, None, None, None, None, false, None)
    }

    /// Sets the certificate, key and certificate authority used for TLS.
    pub fn with_tls(&mut self, cert_path: Option<String>, key_path: Option<String>, ca_path: Option<String>)
        ensures
            final(self).cert_path == cert_path,
            final(self).key_path == key_path,
            final(self).ca_path == ca_path,
            final(self).nr_requests == old(self).nr_requests,
            final(self).api_key == old(self).api_key,
            final(self).allowed_names == old(self).allowed_names,
            final(self).keep_alive == old(self).keep_alive,
            final(self).activate_debug == old(self).activate_debug,
            final(self).ignore_server_init == old(self).ignore_server_init,
            final(self).redis_url == old(self).redis_url,
            final(self).handlers() == old(self).handlers(),
    {
        self.cert_path = cert_path;
        self.key_path = key_path;
        self.ca_path = ca_path;
    }

    /// Sets the common names of the clients allowed to connect.
    pub fn with_allowed_names(&mut self, allowed_names: Option<Vec<String>>)
        ensures
            final(self).allowed_names == allowed_names,
            final(self).nr_requests == old(self).nr_requests,
            final(self).api_key == old(self).api_key,
            final(self).cert_path == old(self).cert_path,
            final(self).key_path == old(self).key_path,
            final(self).ca_path == old(self).ca_path,
            final(self).keep_alive == old(self).keep_alive,
            final(self).activate_debug == old(self).activate_debug,
            final(self).ignore_server_init == old(self).ignore_server_init,
            final(self).redis_url == old(self).redis_url,
            final(self).handlers() == old(self).handlers(),
    {
        self.allowed_names = allowed_names;
    }

    /// Sets the keep-alive of HTTP connections, in seconds.
    pub fn with_keep_alive(&mut self, keep_alive: Option<i32>)
        ensures
            final(self).keep_alive == keep_alive,
            final(self).nr_requests == old(self).nr_requests,
            final(self).api_key == old(self).api_key,
            final(self).cert_path == old(self).cert_path,
            final(self).key_path == old(self).key_path,
            final(self).ca_path == old(self).ca_path,
            final(self).allowed_names == old(self).allowed_names,
            final(self).activate_debug == old(self).activate_debug,
            final(self).ignore_server_init == old(self).ignore_server_init,
            final(self).redis_url == old(self).redis_url,
            final(self).handlers() == old(self).handlers(),
    {
        self.keep_alive = keep_alive;
    }

    /// Sets how many requests the server processes at once.
    pub fn with_max_requests(&mut self, max_requests: i32)
        ensures
            final(self).nr_requests == max_requests,
            final(self).api_key == old(self).api_key,
            final(self).cert_path == old(self).cert_path,
            final(self).key_path == old(self).key_path,
            final(self).ca_path == old(self).ca_path,
            final(self).allowed_names == old(self).allowed_names,
            final(self).keep_alive == old(self).keep_alive,
            final(self).activate_debug == old(self).activate_debug,
            final(self).ignore_server_init == old(self).ignore_server_init,
            final(self).redis_url == old(self).redis_url,
            final(self).handlers() == old(self).handlers(),
    {
        self.nr_requests = max_requests;
    }

    /// Turns debug logging on or off.
    pub fn with_activate_debug(&mut self, debug: bool)
        ensures
            final(self).activate_debug == debug,
            final(self).nr_requests == old(self).nr_requests,
            final(self).api_key == old(self).api_key,
            final(self).cert_path == old(self).cert_path,
            final(self).key_path == old(self).key_path,
            final(self).ca_path == old(self).ca_path,
            final(self).allowed_names == old(self).allowed_names,
            final(self).keep_alive == old(self).keep_alive,
            final(self).ignore_server_init == old(self).ignore_server_init,
            final(self).redis_url == old(self).redis_url,
            final(self).handlers() == old(self).handlers(),
    {
        self.activate_debug = debug;
    }

    /// Sets the API key requests must carry.
    pub fn with_api_key(&mut self, api_key: String)
        ensures
            final(self).api_key == api_key,
            final(self).nr_requests == old(self).nr_requests,
            final(self).cert_path == old(self).cert_path,
            final(self).key_path == old(self).key_path,
            final(self).ca_path == old(self).ca_path,
            final(self).allowed_names == old(self).allowed_names,
            final(self).keep_alive == old(self).keep_alive,
            final(self).activate_debug == old(self).activate_debug,
            final(self).ignore_server_init == old(self).ignore_server_init,
            final(self).redis_url == old(self).redis_url,
            final(self).handlers() == old(self).handlers(),
    {
        self.api_key = api_key;
    }

    /// Sets the Redis server for pub/sub across services.
    pub fn with_redis_url(&mut self, redis_url: String)
        ensures
            final(self).redis_url == Some(redis_url),
            final(self).nr_requests == old(self).nr_requests,
            final(self).api_key == old(self).api_key,
            final(self).cert_path == old(self).cert_path,
            final(self).key_path == old(self).key_path,
            final(self).ca_path == old(self).ca_path,
            final(self).allowed_names == old(self).allowed_names,
            final(self).keep_alive == old(self).keep_alive,
            final(self).activate_debug == old(self).activate_debug,
            final(self).ignore_server_init == old(self).ignore_server_init,
            final(self).handlers() == old(self).handlers(),
    {
        self.redis_url = Some(redis_url);
    }

    /// Chooses whether the HTTP server is left out at start.
    pub fn with_ignore_server_init(&mut self, ignore_server_init: bool)
        ensures
            final(self).ignore_server_init == ignore_server_init,
            final(self).nr_requests == old(self).nr_requests,
            final(self).api_key == old(self).api_key,
            final(self).cert_path == old(self).cert_path,
            final(self).key_path == old(self).key_path,
            final(self).ca_path == old(self).ca_path,
            final(self).allowed_names == old(self).allowed_names,
            final(self).keep_alive == old(self).keep_alive,
            final(self).activate_debug == old(self).activate_debug,
            final(self).redis_url == old(self).redis_url,
            final(self).handlers() == old(self).handlers(),
    {
        self.ignore_server_init = ignore_server_init;
    }

    /// Whether a handler named `name` is registered.
    pub fn has_handler(&self, name: &str) -> (found: bool)
        ensures
            found == self.handlers().contains_key(name@),
    {
        self.number_replicas.contains_key(name)
    }

    /// The number of replicas of handler `name`, if it is registered.
    pub fn replicas_of(&self, name: &str) -> (replicas: Option<i32>)
        ensures
            match replicas {
                Some(r) => self.handlers().contains_key(name@) && r == self.handlers()[name@],
                None => !self.handlers().contains_key(name@),
            },
    {
        match self.number_replicas.get(name) {
            Some(r) => Some(*r),
            None => None,
        }
    }

    /// Registers handler `name`, of which at most `nr_replicas` run at once.
    /// A name can be registered once.
    pub fn add_handler(&mut self, name: &str, nr_replicas: i32)
        requires
            !old(self).handlers().contains_key(name@),
        ensures
            same_settings(&*final(self), &*old(self)),
            final(self).handlers() == old(self).handlers().insert(name@, nr_replicas),
            final(self).nr_requests == old(self).nr_requests,
            final(self).api_key == old(self).api_key,
            final(self).cert_path == old(self).cert_path,
            final(self).key_path == old(self).key_path,
            final(self).ca_path == old(self).ca_path,
            final(self).allowed_names == old(self).allowed_names,
            final(self).keep_alive == old(self).keep_alive,
            final(self).activate_debug == old(self).activate_debug,
            final(self).ignore_server_init == old(self).ignore_server_init,
            final(self).redis_url == old(self).redis_url,
    {
        self.number_replicas.insert(name.to_owned(), nr_replicas);
    }

    /// How the HTTP server is set up at start, or `None` when it is left out.
    /// TLS is used when both a certificate and a key are set; clients must
    /// then present certificates when a certificate authority is set too. The
    /// keep-alive defaults to `DEFAULT_KEEP_ALIVE_SECS`; logging is `debug`
    /// when debug is on, else `info`; the Redis URL defaults to empty.
    pub fn server_plan(&self) -> (plan: Option<ServerPlan>)
        ensures
            self.ignore_server_init ==> plan is None,
            !self.ignore_server_init ==> (plan matches Some(p) && {
                &&& p.max_requests == self.nr_requests
                &&& p.api_key == self.api_key
                &&& p.keep_alive_secs == match self.keep_alive {
                    Some(k) => k,
                    None => DEFAULT_KEEP_ALIVE_SECS,
                }
                &&& p.log_level@ == if self.activate_debug {
                    "debug"@
                } else {
                    "info"@
                }
                &&& p.redis_url@ == match self.redis_url {
                    Some(u) => u@,
                    None => Seq::<char>::empty(),
                }
                &&& match (self.cert_path, self.key_path) {
                    (Some(c), Some(k)) => match self.ca_path {
                        Some(a) => p.tls matches TlsPlan::ClientAuth {
                            cert_path,
                            key_path,
                            ca_path,
                            allowed_names,
                        } && cert_path == c && key_path == k && ca_path == a && names_view(allowed_names)
                            == names_view(self.allowed_names),
                        None => p.tls matches TlsPlan::ServerOnly { cert_path, key_path }
                            && cert_path == c && key_path == k,
                    },
                    _ => p.tls is Plain,
                }
            }),
        plan is Some && plan.unwrap().tls is ClientAuth ==> match (
            plan.unwrap().tls->allowed_names,
            self.allowed_names,
        ) {
            (Some(w), Some(v)) => w.len() == v.len() && forall|i: int|
                0 <= i < v.len() ==> #[trigger] w@[i] == v@[i],
            (None, None) => true,
            _ => false,
        },
    {
        if self.ignore_server_init {
            return None;
        }
        let tls = match (&self.cert_path, &self.key_path) {
            (Some(c), Some(k)) => match &self.ca_path {
                Some(a) => TlsPlan::ClientAuth {
                    cert_path: c.clone(),
                    key_path: k.clone(),
                    ca_path: a.clone(),
                    allowed_names: clone_names(&self.allowed_names),
                },
                None => TlsPlan::ServerOnly { cert_path: c.clone(), key_path: k.clone() },
            },
            _ => TlsPlan::Plain,
        };
        let keep_alive_secs = match self.keep_alive {
            Some(k) => k,
            None => DEFAULT_KEEP_ALIVE_SECS,
        };
        let log_level = if self.activate_debug {
            String::from_str("debug")
        } else {
            String::from_str("info")
        };
        let redis_url = match &self.redis_url {
            Some(u) => u.clone(),
            None => String::new(),
        };
        Some(
            ServerPlan {
                tls,
                keep_alive_secs,
                log_level,
                max_requests: self.nr_requests,
                api_key: self.api_key.clone(),
                redis_url,
            },
        )
    }
}

/// The names of an optional list, by their views.
pub open spec fn names_view(names: Option<Vec<String>>) -> Option<Seq<String>> {
    match names {
        Some(v) => Some(v@),
        None => None,
    }
}

/// The names of a list are exactly its elements: none is lost, added or
/// moved, and an absent list stays absent.
pub proof fn lemma_names_kept(names: Option<Vec<String>>)
    ensures
        names is None ==> names_view(names) is None,
        names is Some ==> (names_view(names) matches Some(s) && s.len() == names.unwrap().len()
            && forall|i: int| 0 <= i < s.len() ==> #[trigger] s[i] == names.unwrap()@[i]),
{
}

/// A copy of a list of names.
fn clone_names(names: &Option<Vec<String>>) -> (copy: Option<Vec<String>>)
    ensures
        names_view(copy) == names_view(*names),
{
    match names {
        None => None,
        Some(v) => {
            let mut out: Vec<String> = Vec::new();
            let n = v.len();
            let mut i: usize = 0;
            while i < n
                invariant
                    n == v@.len(),
                    0 <= i <= n,
                    out@ == v@.subrange(0, i as int),
                decreases n - i,
            {
                out.push(v[i].clone());
                assert(out@ =~= v@.subrange(0, i + 1));
                i = i + 1;
            }
            assert(v@.subrange(0, n as int) =~= v@);
            Some(out)
        },
    }
}

} // verus!
