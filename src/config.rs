//! Configuration: the server's address and initial phase, and each check's
//! settings, read from `HEALTHMONITOR_*` variables with defaults for those
//! that are missing or malformed.

use vstd::prelude::*;
use crate::status::{phase_of_text, DeploymentPhase};
use crate::text::{bounded_decimal, decimal, decimal_text, parse_decimal, trim, trim_of, views};

verus! {

pub const SCHEME_VAR: &'static str = "HEALTHMONITOR_SERVER_SCHEME";
pub const ADDRESS_VAR: &'static str = "HEALTHMONITOR_SERVER_ADDRESS";
pub const PORT_VAR: &'static str = "HEALTHMONITOR_SERVER_PORT";
pub const PHASE_VAR: &'static str = "HEALTHMONITOR_SERVER_PHASE";
pub const FILE_INTERVAL_VAR: &'static str = "HEALTHMONITOR_FILECHECK_INTERVAL";
pub const FILES_VAR: &'static str = "HEALTHMONITOR_FILECHECK_FILES";
pub const URL_INTERVAL_VAR: &'static str = "HEALTHMONITOR_URLCHECK_INTERVAL";
pub const URLS_VAR: &'static str = "HEALTHMONITOR_URLCHECK_URLS";
pub const URL_TIMEOUT_VAR: &'static str = "HEALTHMONITOR_URLCHECK_TIMEOUT";

pub const DEFAULT_PORT: u16 = 8080;
pub const DEFAULT_INTERVAL: usize = 30;
pub const DEFAULT_TIMEOUT: usize = 10;

/// All settings.
pub struct Config {
    pub server: ServerConfig,
    pub checks: ChecksConfig,
}

/// Where the status service listens, and the phase it starts in.
pub struct ServerConfig {
    pub scheme: String,
    pub address: String,
    pub port: u16,
    pub phase: DeploymentPhase,
}

/// The settings of each check.
pub struct ChecksConfig {
    pub file_check: FileCheckConfig,
    pub url_check: UrlCheckConfig,
}

/// Settings of the file check: seconds between runs, and the files.
pub struct FileCheckConfig {
    pub interval: usize,
    pub files: Vec<String>,
}

/// Settings of the URL check: seconds between runs, the URLs, and the
/// timeout of each request in seconds.
pub struct UrlCheckConfig {
    pub interval: usize,
    pub urls: Vec<String>,
    pub timeout: usize,
}

/// The value of the last variable of that name, if any.
pub open spec fn lookup(vars: Seq<(Seq<char>, Seq<char>)>, name: Seq<char>) -> Option<Seq<char>>
    decreases vars.len(),
{
    if vars.len() == 0 {
        None
    } else if vars.last().0 == name {
        Some(vars.last().1)
    } else {
        lookup(vars.drop_last(), name)
    }
}

/// The view of each (name, value) pair.
pub open spec fn pair_views(v: Seq<(String, String)>) -> Seq<(Seq<char>, Seq<char>)> {
    v.map_values(|p: (String, String)| (p.0@, p.1@))
}

/// A number setting: the number its value denotes when that is at most
/// `max`, else `default`.
pub open spec fn number_setting(value: Option<Seq<char>>, max: u64, default: u64) -> u64 {
    match value {
        Some(t) => match bounded_decimal(t, max) {
            Some(n) => n,
            None => default,
        },
        None => default,
    }
}

/// A phase setting: the phase its value names, else online.
pub open spec fn phase_setting(value: Option<Seq<char>>) -> DeploymentPhase {
    match phase_of_text(value.unwrap_or("online"@)) {
        Some(p) => p,
        None => DeploymentPhase::Online,
    }
}

/// The pieces of a text between its commas, in order.
pub open spec fn split_commas(s: Seq<char>) -> Seq<Seq<char>>
    decreases s.len(),
{
    if s.len() == 0 {
        seq![Seq::empty()]
    } else {
        let init = split_commas(s.drop_last());
        if s.last() == ',' {
            init.push(Seq::empty())
        } else {
            init.update(init.len() - 1, init.last().push(s.last()))
        }
    }
}

/// The pieces trimmed, the empty ones left out.
pub open spec fn kept_items(pieces: Seq<Seq<char>>) -> Seq<Seq<char>>
    decreases pieces.len(),
{
    if pieces.len() == 0 {
        Seq::empty()
    } else {
        let t = trim_of(pieces.last());
        if t.len() > 0 {
            kept_items(pieces.drop_last()).push(t)
        } else {
            kept_items(pieces.drop_last())
        }
    }
}

/// The items of a comma-separated list: each piece trimmed, empty ones left
/// out.
pub open spec fn list_items(s: Seq<char>) -> Seq<Seq<char>> {
    kept_items(split_commas(s))
}

/// A list setting: the items of its value, none where it is missing.
pub open spec fn list_setting(value: Option<Seq<char>>) -> Seq<Seq<char>> {
    match value {
        Some(t) => list_items(t),
        None => Seq::empty(),
    }
}

proof fn lemma_split_nonempty(s: Seq<char>)
    ensures
        split_commas(s).len() > 0,
    decreases s.len(),
{
    if s.len() > 0 {
        lemma_split_nonempty(s.drop_last());
    }
}

/// Splits a comma-separated list into its trimmed, non-empty items.
pub fn parse_list(s: &str) -> (r: Vec<String>)
    ensures
        views(r@) == list_items(s@),
{
    let n = s.unicode_len();
    let mut items: Vec<String> = Vec::new();
    let mut start: usize = 0;
    let mut i: usize = 0;
    let ghost mut done: Seq<Seq<char>> = Seq::empty();
    proof {
        assert(s@.take(0) =~= Seq::<char>::empty());
        assert(done.push(s@.subrange(0, 0)) =~= seq![Seq::<char>::empty()]);
    }
    while i < n
        invariant
            n == s@.len(),
            start <= i <= n,
            split_commas(s@.take(i as int)) == done.push(s@.subrange(start as int, i as int)),
            views(items@) == kept_items(done),
        decreases n - i,
    {
        let c = s.get_char(i);
        proof {
            lemma_split_nonempty(s@.take(i as int));
            assert(s@.take(i + 1).drop_last() =~= s@.take(i as int));
            assert(s@.take(i + 1).last() == c);
        }
        if c == ',' {
            let piece = s.substring_char(start, i);
            let t = trim(piece);
            proof {
                assert(done.push(piece@).drop_last() =~= done);
            }
            if t.unicode_len() > 0 {
                items.push(String::from_str(t));
                proof {
                    assert(views(items@) =~= kept_items(done).push(t@));
                }
            }
            proof {
                done = done.push(piece@);
                assert(s@.subrange(i + 1, i + 1) =~= Seq::<char>::empty());
            }
            start = i + 1;
        } else {
            proof {
                assert(s@.subrange(start as int, i + 1) =~= s@.subrange(start as int, i as int).push(c));
            }
        }
        i = i + 1;
    }
    let piece = s.substring_char(start, n);
    let t = trim(piece);
    proof {
        assert(s@.take(n as int) =~= s@);
        assert(done.push(piece@).drop_last() =~= done);
    }
    if t.unicode_len() > 0 {
        items.push(String::from_str(t));
        proof {
            assert(views(items@) =~= kept_items(done).push(t@));
        }
    }
    items
}

/// Finds the value of the last variable named `name`.
pub fn lookup_var<'a>(vars: &'a Vec<(String, String)>, name: &str) -> (r: Option<&'a String>)
    ensures
        match r {
            Some(v) => lookup(pair_views(vars@), name@) == Some(v@),
            None => lookup(pair_views(vars@), name@) is None,
        },
{
    let mut found: Option<&String> = None;
    let mut i: usize = 0;
    while i < vars.len()
        invariant
            i <= vars.len(),
            match found {
                Some(v) => lookup(pair_views(vars@.take(i as int)), name@) == Some(v@),
                None => lookup(pair_views(vars@.take(i as int)), name@) is None,
            },
        decreases vars.len() - i,
    {
        proof {
            assert(pair_views(vars@.take(i + 1)).drop_last() =~= pair_views(vars@.take(i as int)));
        }
        if vars[i].0.as_str().to_owned() == name.to_owned() {
            found = Some(&vars[i].1);
        }
        i = i + 1;
    }
    proof {
        assert(vars@.take(vars@.len() as int) =~= vars@);
    }
    found
}

fn number_var(vars: &Vec<(String, String)>, name: &str, max: u64, default: u64) -> (r: u64)
    ensures
        r == number_setting(lookup(pair_views(vars@), name@), max, default),
{
    match lookup_var(vars, name) {
        Some(v) => match parse_decimal(v.as_str(), max) {
            Some(n) => n,
            None => default,
        },
        None => default,
    }
}

fn list_var(vars: &Vec<(String, String)>, name: &str) -> (r: Vec<String>)
    ensures
        views(r@) == list_setting(lookup(pair_views(vars@), name@)),
{
    match lookup_var(vars, name) {
        Some(v) => parse_list(v.as_str()),
        None => {
            let r: Vec<String> = Vec::new();
            assert(views(r@) =~= Seq::empty());
            r
        },
    }
}

fn text_var(vars: &Vec<(String, String)>, name: &str, default: &str) -> (r: String)
    ensures
        r@ == lookup(pair_views(vars@), name@).unwrap_or(default@),
{
    match lookup_var(vars, name) {
        Some(v) => v.clone(),
        None => String::from_str(default),
    }
}

/// Whether a configuration holds the given settings.
pub open spec fn config_holds(
    c: Config,
    scheme: Seq<char>,
    address: Seq<char>,
    port: u16,
    phase: DeploymentPhase,
    file_interval: usize,
    files: Seq<Seq<char>>,
    url_interval: usize,
    urls: Seq<Seq<char>>,
    timeout: usize,
) -> bool {
    &&& c.server.scheme@ == scheme
    &&& c.server.address@ == address
    &&& c.server.port == port
    &&& c.server.phase == phase
    &&& c.checks.file_check.interval == file_interval
    &&& views(c.checks.file_check.files@) == files
    &&& c.checks.url_check.interval == url_interval
    &&& views(c.checks.url_check.urls@) == urls
    &&& c.checks.url_check.timeout == timeout
}

impl Config {
    /// The default configuration: `http://127.0.0.1:8080`, online, checks
    /// every 30 seconds, no files, no URLs, a URL timeout of 10 seconds.
    pub fn new() -> (r: Config)
        ensures
            config_holds(
                r,
                "http"@,
                "127.0.0.1"@,
                DEFAULT_PORT,
                DeploymentPhase::Online,
                DEFAULT_INTERVAL,
                Seq::empty(),
                DEFAULT_INTERVAL,
                Seq::empty(),
                DEFAULT_TIMEOUT,
            ),
    {
        let files: Vec<String> = Vec::new();
        let urls: Vec<String> = Vec::new();
        assert(views(files@) =~= Seq::empty());
        assert(views(urls@) =~= Seq::empty());
        Config {
            server: ServerConfig {
                scheme: String::from_str("http"),
                address: String::from_str("127.0.0.1"),
                port: DEFAULT_PORT,
                phase: DeploymentPhase::Online,
            },
            checks: ChecksConfig {
                file_check: FileCheckConfig { interval: DEFAULT_INTERVAL, files },
                url_check: UrlCheckConfig { interval: DEFAULT_INTERVAL, urls, timeout: DEFAULT_TIMEOUT },
            },
        }
    }

    /// The configuration that a set of (name, value) variables gives: each
    /// setting from its `HEALTHMONITOR_*` variable, the default where that is
    /// missing or malformed. Lists are comma-separated.
    pub fn from_vars(vars: &Vec<(String, String)>) -> (r: Config)
        ensures
            ({
                let env = pair_views(vars@);
                config_holds(
                    r,
                    lookup(env, SCHEME_VAR@).unwrap_or("http"@),
                    lookup(env, ADDRESS_VAR@).unwrap_or("127.0.0.1"@),
                    number_setting(lookup(env, PORT_VAR@), 0xffff, DEFAULT_PORT as u64) as u16,
                    phase_setting(lookup(env, PHASE_VAR@)),
                    number_setting(lookup(env, FILE_INTERVAL_VAR@), usize::MAX as u64, DEFAULT_INTERVAL as u64) as usize,
                    list_setting(lookup(env, FILES_VAR@)),
                    number_setting(lookup(env, URL_INTERVAL_VAR@), usize::MAX as u64, DEFAULT_INTERVAL as u64) as usize,
                    list_setting(lookup(env, URLS_VAR@)),
                    number_setting(lookup(env, URL_TIMEOUT_VAR@), usize::MAX as u64, DEFAULT_TIMEOUT as u64) as usize,
                )
            }),
    {
        let scheme = text_var(vars, SCHEME_VAR, "http");
        let address = text_var(vars, ADDRESS_VAR, "127.0.0.1");
        let port = number_var(vars, PORT_VAR, 0xffff, DEFAULT_PORT as u64) as u16;
        let phase_text = text_var(vars, PHASE_VAR, "online");
        let phase = match DeploymentPhase::from_name(phase_text.as_str()) {
            Some(p) => p,
            None => DeploymentPhase::Online,
        };
        let file_interval = number_var(vars, FILE_INTERVAL_VAR, usize::MAX as u64, DEFAULT_INTERVAL as u64) as usize;
        let files = list_var(vars, FILES_VAR);
        let url_interval = number_var(vars, URL_INTERVAL_VAR, usize::MAX as u64, DEFAULT_INTERVAL as u64) as usize;
        let urls = list_var(vars, URLS_VAR);
        let timeout = number_var(vars, URL_TIMEOUT_VAR, usize::MAX as u64, DEFAULT_TIMEOUT as u64) as usize;
        Config {
            server: ServerConfig { scheme, address, port, phase },
            checks: ChecksConfig {
                file_check: FileCheckConfig { interval: file_interval, files },
                url_check: UrlCheckConfig { interval: url_interval, urls, timeout },
            },
        }
    }
}

/// The base URL of the status service: `scheme://address:port`.
pub open spec fn base_url(s: ServerConfig) -> Seq<char> {
    s.scheme@ + "://"@ + s.address@ + ":"@ + decimal_text(s.port as nat)
}

impl ServerConfig {
    /// The base URL of the status service, `scheme://address:port`.
    pub fn base_url(&self) -> (r: String)
        ensures
            r@ == base_url(*self),
    {
        let port = decimal(self.port as u64);
        let mut r = self.scheme.clone();
        r.append("://");
        r.append(self.address.as_str());
        r.append(":");
        r.append(port.as_str());
        r
    }
}

} // verus!
