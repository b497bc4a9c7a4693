use vstd::prelude::*;

verus! {

/// How much the server logs.
#[derive(PartialEq, Eq, Structural, Clone, Copy, Debug)]
pub enum LogLevel {
    Off,
    Error,
    Warn,
    Info,
    Debug,
    Trace,
}

/// The server's command line in its first form: where the configuration,
/// and how and where to log.
pub struct Args {
    pub config_path: String,
    pub log_level: LogLevel,
    pub log_path: String,
}

/// A patch listed for a package in the configuration file.
pub struct LegacyPatch {
    pub url: String,
    pub sha512: Option<String>,
}

/// A package listed in the configuration file.
pub struct LegacyPackageDefinition {
    pub name: String,
    pub run_before: Option<String>,
    pub patches: Option<Vec<LegacyPatch>>,
}

/// Settings as one source gives them: the command line or the
/// configuration file. Paths are kept as strings.
pub struct SharedConfig {
    pub config_path: Option<String>,
    pub log_level: Option<LogLevel>,
    pub log_path: Option<String>,
    pub api_key: Option<String>,
    pub port: Option<u16>,
    pub repo_name: Option<String>,
    pub sign_key: Option<String>,
    pub rebuild_time: Option<u64>,
    pub serve_path: Option<String>,
    pub build_logs_path: Option<String>,
    pub database_path: Option<String>,
    pub webhooks: Option<Vec<String>>,
    pub webhook_verify_ssl: Option<bool>,
    pub webhook_certificate: Option<String>,
    pub packages: Vec<LegacyPackageDefinition>,
}

/// The settings the server runs with.
pub struct Config {
    pub log_level: LogLevel,
    pub log_path: String,
    pub api_key: String,
    pub port: u16,
    pub repo_name: String,
    pub sign_key: Option<String>,
    pub rebuild_time: Option<u64>,
    pub serve_path: String,
    pub build_logs_path: String,
    pub database_path: String,
    pub webhooks: Vec<String>,
    pub webhook_verify_ssl: bool,
    pub webhook_certificate: Option<String>,
    pub packages: Vec<LegacyPackageDefinition>,
}

/// The first value present among the command line's and the file's, else the default.
pub open spec fn pick<T>(cli: Option<T>, file: Option<T>, default: T) -> T {
    match cli {
        Some(v) => v,
        None => match file {
            Some(v) => v,
            None => default,
        },
    }
}

/// The first value present among the command line's and the file's, if any.
pub open spec fn pick_opt<T>(cli: Option<T>, file: Option<T>) -> Option<T> {
    match cli {
        Some(v) => Some(v),
        None => file,
    }
}

fn pick_string(cli: Option<String>, file: Option<String>, default: &str) -> (r: String)
    ensures
        r@ == pick(cli.deep_view(), file.deep_view(), default@),
{
    match cli {
        Some(v) => v,
        None => match file {
            Some(v) => v,
            None => String::from_str(default),
        },
    }
}

fn pick_opt_string(cli: Option<String>, file: Option<String>) -> (r: Option<String>)
    ensures
        r.deep_view() == pick_opt(cli.deep_view(), file.deep_view()),
{
    match cli {
        Some(v) => Some(v),
        None => file,
    }
}

/// The default path of the configuration file.
pub open spec fn default_config_path() -> Seq<char> {
    "./config_server.json"@
}

/// The configuration file to read: the one given on the command line, else the default.
pub fn config_file_path(cli: &SharedConfig) -> (p: String)
    ensures
        p@ == pick(cli.config_path.deep_view(), None, default_config_path()),
{
    match &cli.config_path {
        Some(p) => p.clone(),
        None => String::from_str("./config_server.json"),
    }
}

impl Config {
    /// Merges the command line's settings over the file's: a setting given
    /// on the command line wins, then the file's, then the default. The
    /// packages come from the file alone. The file must give an API key.
    pub fn merge(cli: SharedConfig, file: SharedConfig) -> (c: Config)
        requires
            file.api_key is Some,
        ensures
            c.log_level == pick(cli.log_level, None, LogLevel::Info),
            c.log_path@ == pick(cli.log_path.deep_view(), file.log_path.deep_view(), "./aur-build-server.log"@),
            c.api_key@ == pick(cli.api_key.deep_view(), file.api_key.deep_view(), Seq::empty()),
            c.port == pick(cli.port, file.port, 8888u16),
            c.repo_name@ == pick(cli.repo_name.deep_view(), file.repo_name.deep_view(), "aurbuild"@),
            c.sign_key.deep_view() == pick_opt(cli.sign_key.deep_view(), file.sign_key.deep_view()),
            c.rebuild_time == pick_opt(cli.rebuild_time, file.rebuild_time),
            c.serve_path@ == pick(cli.serve_path.deep_view(), file.serve_path.deep_view(), "./server/serve"@),
            c.build_logs_path@ == pick(cli.build_logs_path.deep_view(), file.build_logs_path.deep_view(), "./server/build_logs"@),
            c.database_path@ == pick(cli.database_path.deep_view(), file.database_path.deep_view(), "./server/aur-build.sqlite"@),
            c.webhooks.deep_view() == pick(cli.webhooks.deep_view(), file.webhooks.deep_view(), Seq::empty()),
            c.webhook_verify_ssl == pick(cli.webhook_verify_ssl, file.webhook_verify_ssl, true),
            c.webhook_certificate.deep_view() == pick_opt(cli.webhook_certificate.deep_view(), file.webhook_certificate.deep_view()),
            c.packages == file.packages,
    {
        let log_level = match cli.log_level {
            Some(l) => l,
            None => LogLevel::Info,
        };
        let api_key = match cli.api_key {
            Some(k) => k,
            None => match file.api_key {
                Some(k) => k,
                None => String::new(),
            },
        };
        let port = match cli.port {
            Some(p) => p,
            None => match file.port {
                Some(p) => p,
                None => 8888,
            },
        };
        let rebuild_time = match cli.rebuild_time {
            Some(t) => Some(t),
            None => file.rebuild_time,
        };
        let webhooks = match cli.webhooks {
            Some(w) => w,
            None => match file.webhooks {
                Some(w) => w,
                None => {
                    let w: Vec<String> = Vec::new();
                    assert(w.deep_view() =~= Seq::<Seq<char>>::empty());
                    w
                },
            },
        };
        let webhook_verify_ssl = match cli.webhook_verify_ssl {
            Some(b) => b,
            None => match file.webhook_verify_ssl {
                Some(b) => b,
                None => true,
            },
        };
        Config {
            log_level,
            log_path: pick_string(cli.log_path, file.log_path, "./aur-build-server.log"),
            api_key,
            port,
            repo_name: pick_string(cli.repo_name, file.repo_name, "aurbuild"),
            sign_key: pick_opt_string(cli.sign_key, file.sign_key),
            rebuild_time,
            serve_path: pick_string(cli.serve_path, file.serve_path, "./server/serve"),
            build_logs_path: pick_string(cli.build_logs_path, file.build_logs_path, "./server/build_logs"),
            database_path: pick_string(cli.database_path, file.database_path, "./server/aur-build.sqlite"),
            webhooks,
            webhook_verify_ssl,
            webhook_certificate: pick_opt_string(cli.webhook_certificate, file.webhook_certificate),
            packages: file.packages,
        }
    }
}

} // verus!
