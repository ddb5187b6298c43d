use vstd::prelude::*;

verus! {

/// The server's configuration: built from defaults, then overlaid by a
/// configuration file, then by command-line options.
#[derive(Debug, Clone)]
pub struct Config {
    pub database: DatabaseConfig,
    pub server: ServerConfig,
    pub jwt: JwtConfig,
    pub log: LogConfig,
}

#[derive(Debug, Clone)]
pub struct DatabaseConfig {
    pub dsn: String,
    pub migration: Option<String>,
}

#[derive(Debug, Clone)]
pub struct ServerConfig {
    pub host: String,
    pub cors: Vec<String>,
    pub static_dir: Option<String>,
}

/// How bearer tokens are issued and checked.
#[derive(Debug, Clone)]
pub struct JwtConfig {
    pub issuer: String,
    pub secret: String,
    /// Lifetime of an issued token, in seconds.
    pub expire: i64,
}

#[derive(Debug, Clone)]
pub struct LogConfig {
    pub level: Option<String>,
}

/// The settings a configuration file gives; each one that is absent keeps
/// the value it overlays.
#[derive(Debug, Clone)]
pub struct PartialConfig {
    pub database: Option<PartialDatabaseConfig>,
    pub server: Option<PartialServerConfig>,
    pub jwt: Option<PartialJwtConfig>,
    pub log: Option<PartialLogConfig>,
}

#[derive(Debug, Clone)]
pub struct PartialDatabaseConfig {
    pub dsn: Option<String>,
    pub migration: Option<String>,
}

#[derive(Debug, Clone)]
pub struct PartialServerConfig {
    pub host: Option<String>,
    pub cors: Option<Vec<String>>,
    pub static_dir: Option<String>,
}

#[derive(Debug, Clone)]
pub struct PartialJwtConfig {
    pub issuer: Option<String>,
    pub secret: Option<String>,
    pub expire: Option<i64>,
}

#[derive(Debug, Clone)]
pub struct PartialLogConfig {
    pub level: Option<String>,
}

/// The command-line options. Paths are given as text; a path that is not
/// valid text is passed as absent.
#[derive(Debug, Clone)]
pub struct Cli {
    pub dsn: Option<String>,
    pub migration: Option<String>,
    pub no_migration: bool,
    pub host: Option<String>,
    pub cors: Option<Vec<String>>,
    pub no_cors: bool,
    pub static_dir: Option<String>,
    pub no_static: bool,
    pub jwt_issuer: Option<String>,
    pub jwt_secret: Option<String>,
    pub jwt_expire: Option<i64>,
    pub log_level: Option<String>,
    pub no_log: bool,
}

/// The issuer named in tokens unless configured otherwise.
pub const DEFAULT_ISSUER: &'static str = "todo_auth";

pub const DEFAULT_DSN: &'static str = "sqlite:data.db";

pub const DEFAULT_HOST: &'static str = "0.0.0.0:3000";

/// Token lifetime unless configured otherwise: one day.
pub const DEFAULT_EXPIRE: i64 = 86400;

/// `given` where present, else `current`.
pub open spec fn overlay<T>(current: T, given: Option<T>) -> T {
    match given {
        Some(v) => v,
        None => current,
    }
}

/// Whether `level` is a valid log filter expression for tracing-subscriber's
/// `EnvFilter`.
pub uninterp spec fn valid_log_filter(level: Seq<char>) -> bool;

/// Relies on tracing-subscriber's `EnvFilter::try_new`: whether it parses
/// `level`.
#[verifier::external_body]
fn log_filter_parses(level: &str) -> (r: bool)
    ensures
        r == valid_log_filter(level@),
{
    tracing_subscriber::EnvFilter::try_new(level).is_ok()
}

/// A copy of a list of strings.
pub fn copy_strings(v: &Vec<String>) -> (r: Vec<String>)
    ensures
        r@ == v@,
{
    let mut r: Vec<String> = Vec::new();
    let mut i: usize = 0;
    while i < v.len()
        invariant
            i <= v@.len(),
            r@ == v@.subrange(0, i as int),
        decreases v@.len() - i,
    {
        r.push(v[i].clone());
        i = i + 1;
        assert(r@ =~= v@.subrange(0, i as int));
    }
    assert(r@ =~= v@);
    r
}

/// The text of each string in `v`.
pub open spec fn texts(v: Seq<String>) -> Seq<Seq<char>> {
    v.map_values(|w: String| w@)
}

/// The warnings `validate` gives for `c`, in order: log level, static
/// directory, migration file.
pub open spec fn validation_warnings(c: Config, static_dir_exists: bool, migration_exists: bool) -> Seq<Seq<char>> {
    let level = match c.log.level {
        Some(l) => if valid_log_filter(l@) {
            Seq::empty()
        } else {
            seq!["Invalid log filter expression: '"@ + l@ + "'. Logging will be disabled."@]
        },
        None => Seq::empty(),
    };
    let dir = match c.server.static_dir {
        Some(d) => if static_dir_exists {
            Seq::empty()
        } else {
            seq!["Static directory '"@ + d@ + "' does not exist. Static serving will be disabled."@]
        },
        None => Seq::empty(),
    };
    let file = match c.database.migration {
        Some(f) => if migration_exists {
            Seq::empty()
        } else {
            seq!["Migration file '"@ + f@ + "' does not exist. Database migration will be disabled."@]
        },
        None => Seq::empty(),
    };
    level + dir + file
}

impl Config {
    /// The defaults: a local SQLite file, all interfaces on port 3000, no
    /// CORS origins, no static files, no logging, and a random token secret.
    pub fn default() -> (r: Config)
        ensures
            r.database.dsn@ == DEFAULT_DSN@,
            r.database.migration is None,
            r.server.host@ == DEFAULT_HOST@,
            r.server.cors@.len() == 0,
            r.server.static_dir is None,
            r.jwt.issuer@ == DEFAULT_ISSUER@,
            r.jwt.secret@.len() == 36,
            r.jwt.expire == DEFAULT_EXPIRE,
            r.log.level is None,
    {
        Config {
            database: DatabaseConfig { dsn: DEFAULT_DSN.to_owned(), migration: None },
            server: ServerConfig { host: DEFAULT_HOST.to_owned(), cors: Vec::new(), static_dir: None },
            jwt: JwtConfig {
                issuer: DEFAULT_ISSUER.to_owned(),
                secret: crate::token::new_uuid_string(),
                expire: DEFAULT_EXPIRE,
            },
            log: LogConfig { level: None },
        }
    }

    /// Overlays the settings of a configuration file: each one it gives
    /// replaces the current value, each one it leaves out keeps it.
    pub fn merge(&mut self, p: PartialConfig)
        ensures
            final(self).database.dsn == match p.database {
                Some(d) => overlay(old(self).database.dsn, d.dsn),
                None => old(self).database.dsn,
            },
            final(self).database.migration == match p.database {
                Some(d) => if d.migration is Some { d.migration } else { old(self).database.migration },
                None => old(self).database.migration,
            },
            final(self).server.host == match p.server {
                Some(s) => overlay(old(self).server.host, s.host),
                None => old(self).server.host,
            },
            final(self).server.cors@ == match p.server {
                Some(s) => overlay(old(self).server.cors, s.cors)@,
                None => old(self).server.cors@,
            },
            final(self).server.static_dir == match p.server {
                Some(s) => if s.static_dir is Some { s.static_dir } else { old(self).server.static_dir },
                None => old(self).server.static_dir,
            },
            final(self).jwt.issuer == match p.jwt {
                Some(j) => overlay(old(self).jwt.issuer, j.issuer),
                None => old(self).jwt.issuer,
            },
            final(self).jwt.secret == match p.jwt {
                Some(j) => overlay(old(self).jwt.secret, j.secret),
                None => old(self).jwt.secret,
            },
            final(self).jwt.expire == match p.jwt {
                Some(j) => overlay(old(self).jwt.expire, j.expire),
                None => old(self).jwt.expire,
            },
            final(self).log.level == match p.log {
                Some(l) => if l.level is Some { l.level } else { old(self).log.level },
                None => old(self).log.level,
            },
    {
        if let Some(db) = p.database {
            if let Some(dsn) = db.dsn {
                self.database.dsn = dsn;
            }
            if let Some(migration) = db.migration {
                self.database.migration = Some(migration);
            }
        }
        if let Some(server) = p.server {
            if let Some(host) = server.host {
                self.server.host = host;
            }
            if let Some(cors) = server.cors {
                self.server.cors = cors;
            }
            if let Some(static_dir) = server.static_dir {
                self.server.static_dir = Some(static_dir);
            }
        }
        if let Some(jwt) = p.jwt {
            if let Some(issuer) = jwt.issuer {
                self.jwt.issuer = issuer;
            }
            if let Some(secret) = jwt.secret {
                self.jwt.secret = secret;
            }
            if let Some(expire) = jwt.expire {
                self.jwt.expire = expire;
            }
        }
        if let Some(log) = p.log {
            if let Some(level) = log.level {
                self.log.level = Some(level);
            }
        }
    }

    /// Overlays the command-line options, which take precedence over the
    /// file. A `no_*` switch clears its setting whatever the matching option
    /// says.
    pub fn apply_cli(&mut self, cli: &Cli)
        ensures
            final(self).database.dsn == overlay(old(self).database.dsn, cli.dsn),
            final(self).database.migration == if cli.no_migration {
                None
            } else if cli.migration is Some {
                cli.migration
            } else {
                old(self).database.migration
            },
            final(self).server.host == overlay(old(self).server.host, cli.host),
            final(self).server.cors@ == if cli.no_cors {
                Seq::empty()
            } else {
                overlay(old(self).server.cors, cli.cors)@
            },
            final(self).server.static_dir == if cli.no_static {
                None
            } else if cli.static_dir is Some {
                cli.static_dir
            } else {
                old(self).server.static_dir
            },
            final(self).jwt.issuer == overlay(old(self).jwt.issuer, cli.jwt_issuer),
            final(self).jwt.secret == overlay(old(self).jwt.secret, cli.jwt_secret),
            final(self).jwt.expire == overlay(old(self).jwt.expire, cli.jwt_expire),
            final(self).log.level == if cli.no_log {
                None
            } else if cli.log_level is Some {
                cli.log_level
            } else {
                old(self).log.level
            },
    {
        if let Some(db) = &cli.dsn {
            self.database.dsn = db.clone();
        }
        if cli.no_migration {
            self.database.migration = None;
        } else if let Some(file) = &cli.migration {
            self.database.migration = Some(file.clone());
        }
        if let Some(host) = &cli.host {
            self.server.host = host.clone();
        }
        if cli.no_cors {
            self.server.cors.clear();
        } else if let Some(cors) = &cli.cors {
            self.server.cors = copy_strings(cors);
        }
        if cli.no_static {
            self.server.static_dir = None;
        } else if let Some(dir) = &cli.static_dir {
            self.server.static_dir = Some(dir.clone());
        }
        if let Some(issuer) = &cli.jwt_issuer {
            self.jwt.issuer = issuer.clone();
        }
        if let Some(secret) = &cli.jwt_secret {
            self.jwt.secret = secret.clone();
        }
        if let Some(exp) = cli.jwt_expire {
            self.jwt.expire = exp;
        }
        if cli.no_log {
            self.log.level = None;
        } else if let Some(level) = &cli.log_level {
            self.log.level = Some(level.clone());
        }
    }

    /// Drops the settings that cannot be used, and gives a warning for each:
    /// a log level that is not a valid filter expression, a static directory
    /// that does not exist, a migration file that does not exist. Whether the
    /// two paths exist is asked of the file system by the caller.
    pub fn validate(&mut self, static_dir_exists: bool, migration_exists: bool) -> (warnings: Vec<String>)
        ensures
            final(self).log.level == match old(self).log.level {
                Some(l) => if valid_log_filter(l@) { Some(l) } else { None },
                None => None,
            },
            final(self).server.static_dir == if static_dir_exists { old(self).server.static_dir } else { None },
            final(self).database.migration == if migration_exists { old(self).database.migration } else { None },
            final(self).database.dsn == old(self).database.dsn,
            final(self).server.host == old(self).server.host,
            final(self).server.cors == old(self).server.cors,
            final(self).jwt == old(self).jwt,
            texts(warnings@) == validation_warnings(*old(self), static_dir_exists, migration_exists),
    {
        let mut warnings: Vec<String> = Vec::new();
        let mut level_ok = true;
        if let Some(level) = &self.log.level {
            if !log_filter_parses(level.as_str()) {
                warnings.push(
                    "Invalid log filter expression: '".to_owned().concat(level.as_str()).concat(
                        "'. Logging will be disabled.",
                    ),
                );
                level_ok = false;
            }
        }
        if !level_ok {
            self.log.level = None;
        }
        let mut dir_ok = true;
        if let Some(dir) = &self.server.static_dir {
            if !static_dir_exists {
                warnings.push(
                    "Static directory '".to_owned().concat(dir.as_str()).concat(
                        "' does not exist. Static serving will be disabled.",
                    ),
                );
                dir_ok = false;
            }
        }
        if !dir_ok {
            self.server.static_dir = None;
        }
        let mut file_ok = true;
        if let Some(file) = &self.database.migration {
            if !migration_exists {
                warnings.push(
                    "Migration file '".to_owned().concat(file.as_str()).concat(
                        "' does not exist. Database migration will be disabled.",
                    ),
                );
                file_ok = false;
            }
        }
        if !file_ok {
            self.database.migration = None;
        }
        proof {
            assert(texts(warnings@) =~= validation_warnings(*old(self), static_dir_exists, migration_exists));
        }
        warnings
    }
}

} // verus!
