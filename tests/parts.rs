use todo_auth::config::{
    Cli, Config, PartialConfig, PartialDatabaseConfig, PartialJwtConfig, PartialLogConfig,
    PartialServerConfig,
};
use todo_auth::error::{ApiError, UseCaseError};
use todo_auth::model::UtcTime;
use todo_auth::module::{AuthOptionUser, AuthUser, UseCaseModule, UseCaseModuleImpl};
use todo_auth::password;
use todo_auth::token::{encode, Claims};

fn empty_cli() -> Cli {
    Cli {
        dsn: None,
        migration: None,
        no_migration: false,
        host: None,
        cors: None,
        no_cors: false,
        static_dir: None,
        no_static: false,
        jwt_issuer: None,
        jwt_secret: None,
        jwt_expire: None,
        log_level: None,
        no_log: false,
    }
}

#[test]
fn default_config_values() {
    let c = Config::default();
    assert_eq!(c.database.dsn, "sqlite:data.db");
    assert!(c.database.migration.is_none());
    assert_eq!(c.server.host, "0.0.0.0:3000");
    assert!(c.server.cors.is_empty());
    assert_eq!(c.jwt.expire, 86400);
    assert_eq!(c.jwt.secret.len(), 36);
    assert_ne!(Config::default().jwt.secret, c.jwt.secret);
}

#[test]
fn merge_overlays_given_settings_only() {
    let mut c = Config::default();
    c.merge(PartialConfig {
        database: Some(PartialDatabaseConfig { dsn: Some("sqlite:other.db".to_string()), migration: None }),
        server: Some(PartialServerConfig { host: None, cors: Some(vec!["http://x".to_string()]), static_dir: Some("www".to_string()) }),
        jwt: Some(PartialJwtConfig { issuer: Some("me".to_string()), secret: None, expire: Some(10) }),
        log: None,
    });
    assert_eq!(c.database.dsn, "sqlite:other.db");
    assert!(c.database.migration.is_none());
    assert_eq!(c.server.host, "0.0.0.0:3000");
    assert_eq!(c.server.cors, vec!["http://x".to_string()]);
    assert_eq!(c.server.static_dir.as_deref(), Some("www"));
    assert_eq!(c.jwt.issuer, "me");
    assert_eq!(c.jwt.secret.len(), 36);
    assert_eq!(c.jwt.expire, 10);
    assert!(c.log.level.is_none());
    c.merge(PartialConfig { database: None, server: None, jwt: None, log: Some(PartialLogConfig { level: Some("debug".to_string()) }) });
    assert_eq!(c.log.level.as_deref(), Some("debug"));
}

#[test]
fn cli_switches_win_over_options() {
    let mut c = Config::default();
    c.server.cors = vec!["a".to_string()];
    c.log.level = Some("info".to_string());
    let mut cli = empty_cli();
    cli.no_cors = true;
    cli.cors = Some(vec!["b".to_string()]);
    cli.no_log = true;
    cli.log_level = Some("trace".to_string());
    cli.migration = Some("m.sql".to_string());
    cli.jwt_expire = Some(5);
    cli.dsn = Some("sqlite:cli.db".to_string());
    c.apply_cli(&cli);
    assert!(c.server.cors.is_empty());
    assert!(c.log.level.is_none());
    assert_eq!(c.database.migration.as_deref(), Some("m.sql"));
    assert_eq!(c.jwt.expire, 5);
    assert_eq!(c.database.dsn, "sqlite:cli.db");
    let mut cli2 = empty_cli();
    cli2.no_migration = true;
    cli2.cors = Some(vec!["b".to_string()]);
    c.apply_cli(&cli2);
    assert!(c.database.migration.is_none());
    assert_eq!(c.server.cors, vec!["b".to_string()]);
}

#[test]
fn validate_drops_unusable_settings() {
    let mut c = Config::default();
    c.log.level = Some("info".to_string());
    c.server.static_dir = Some("missing".to_string());
    c.database.migration = Some("m.sql".to_string());
    let warnings = c.validate(false, true);
    assert_eq!(warnings.len(), 1);
    assert_eq!(warnings[0], "Static directory 'missing' does not exist. Static serving will be disabled.");
    assert!(c.server.static_dir.is_none());
    assert_eq!(c.log.level.as_deref(), Some("info"));
    assert_eq!(c.database.migration.as_deref(), Some("m.sql"));
    c.log.level = Some("=[bad".to_string());
    let warnings = c.validate(true, false);
    assert_eq!(warnings.len(), 2);
    assert!(c.log.level.is_none());
    assert!(c.database.migration.is_none());
}

#[test]
fn error_descriptions_and_responses() {
    assert_eq!(UseCaseError::AccountIdExists.describe(), "Account ID already exists");
    assert_eq!(UseCaseError::BadRequest("r".to_string()).describe(), "Bad request: r");
    assert_eq!(UseCaseError::Infrastructure("db".to_string()).describe(), "An unexpected infrastructure error occurred: db");
    assert_eq!(UseCaseError::Infrastructure("db".to_string()).source(), Some("db".to_string()));
    assert_eq!(UseCaseError::Unauthorized.source(), None);
    let cases = vec![
        (UseCaseError::AccountIdExists, 409, "Account ID already exists"),
        (UseCaseError::PasswordMismatch, 400, "The entered passwords do not match"),
        (UseCaseError::BadRequest("why".to_string()), 400, "why"),
        (UseCaseError::Unauthorized, 401, "Unauthorized"),
        (UseCaseError::InvalidCredentials, 401, "Invalid credentials"),
        (UseCaseError::Infrastructure("secret detail".to_string()), 500, "An internal server error occurred"),
    ];
    for (e, status, msg) in cases {
        let api = ApiError::from(e);
        assert_eq!(api.status(), status);
        assert_eq!(api.message(), msg);
    }
}

#[test]
fn password_hash_verifies_only_its_password() {
    let h = password::hash("hunter2").unwrap();
    assert_ne!(h, "hunter2");
    assert!(h.starts_with("$argon2"));
    assert!(password::verify("hunter2", &h));
    assert!(!password::verify("hunter3", &h));
    assert!(!password::verify("hunter2", "garbage"));
    assert_ne!(password::hash("hunter2").unwrap(), h);
}

#[test]
fn claims_expiry_and_token_shape() {
    let c = Claims::issue("sub", "iss", 100, 50, "jti".to_string());
    assert_eq!(c.exp, 150);
    let saturated = Claims::issue("sub", "iss", i64::MAX - 1, 10, "j".to_string());
    assert_eq!(saturated.exp, i64::MAX);
    let fresh = Claims::new("sub", "iss", 60);
    assert_eq!(fresh.exp, fresh.iat + 60);
    assert_eq!(fresh.jti.len(), 36);
    let t = encode(&c, "k").unwrap();
    assert_eq!(t.split('.').count(), 3);
    assert_eq!(t, encode(&c, "k").unwrap());
    assert_ne!(t, encode(&c, "other").unwrap());
}

#[test]
fn utc_time_rejects_out_of_range_nanos() {
    assert!(UtcTime::new(0, 1_000_000_000).is_none());
    assert_eq!(UtcTime::new(-3, 999_999_999), Some(UtcTime { seconds: -3, nanos: 999_999_999 }));
}

#[test]
fn guards_map_outcomes() {
    assert_eq!(AuthUser::from_outcome(Ok("a".to_string())).unwrap().account, "a");
    assert!(AuthUser::from_outcome(Err(UseCaseError::Unauthorized)).is_none());
    assert_eq!(AuthOptionUser::from_outcome(Some(Ok("b".to_string()))).account.as_deref(), Some("b"));
    assert!(AuthOptionUser::from_outcome(Some(Err(UseCaseError::Unauthorized))).account.is_none());
    assert!(AuthOptionUser::from_outcome(None).account.is_none());
}

#[test]
fn module_hands_out_configured_use_cases() {
    let m = UseCaseModuleImpl::new(todo_auth::config::JwtConfig { issuer: "i".to_string(), secret: "s".to_string(), expire: 1 });
    assert_eq!(m.auth().jwt.issuer, "i");
    let _ = m.todo();
}

#[test]
fn decode_at_honours_the_leeway_boundary() {
    let c = Claims::issue("u", "iss", 1000, 60, "jti".to_string());
    let t = encode(&c, "k").unwrap();
    assert_eq!(todo_auth::token::claims_of(&t, "iss", "k"), Some(("u".to_string(), 1060)));
    assert_eq!(todo_auth::token::decode_at(&t, "iss", "k", 1090), Some("u".to_string()));
    assert_eq!(todo_auth::token::decode_at(&t, "iss", "k", 1091), None);
    assert_eq!(todo_auth::token::decode_at(&t, "iss", "other", 1000), None);
    assert_eq!(todo_auth::token::decode_at(&t, "other", "k", 1000), None);
    assert_eq!(todo_auth::token::decode(&t, "iss", "k"), None);
}

#[test]
fn accept_compares_now_with_expiry_plus_leeway() {
    assert_eq!(todo_auth::token::accept(Some(("a".to_string(), 100)), 130), Some("a".to_string()));
    assert_eq!(todo_auth::token::accept(Some(("a".to_string(), 100)), 131), None);
    assert_eq!(todo_auth::token::accept(None, 0), None);
    assert_eq!(todo_auth::token::accept(Some(("a".to_string(), i64::MAX)), i64::MAX), Some("a".to_string()));
}

#[test]
fn token_with_negative_expiry_does_not_decode() {
    let c = Claims::issue("u", "iss", -100, 10, "jti".to_string());
    let t = encode(&c, "k").unwrap();
    assert_eq!(todo_auth::token::claims_of(&t, "iss", "k"), None);
}

#[test]
fn fresh_token_decodes_now() {
    let c = Claims::new("u", "iss", 60);
    let t = encode(&c, "k").unwrap();
    assert_eq!(todo_auth::token::decode(&t, "iss", "k"), Some("u".to_string()));
}

fn raw_token(pairs: Vec<(&str, serde_json::Value)>, secret: &str) -> String {
    let payload: std::collections::BTreeMap<&str, serde_json::Value> = pairs.into_iter().collect();
    let key = jsonwebtoken::EncodingKey::from_secret(secret.as_bytes());
    jsonwebtoken::encode(&jsonwebtoken::Header::default(), &payload, &key).unwrap()
}

#[test]
fn token_without_issuer_is_refused() {
    let no_iss = raw_token(
        vec![("sub", serde_json::Value::from("u")), ("exp", serde_json::Value::from(5000i64))],
        "k",
    );
    assert_eq!(todo_auth::token::claims_of(&no_iss, "iss", "k"), None);
    assert_eq!(todo_auth::token::decode_at(&no_iss, "iss", "k", 1000), None);
    let with_iss = raw_token(
        vec![
            ("sub", serde_json::Value::from("u")),
            ("exp", serde_json::Value::from(5000i64)),
            ("iss", serde_json::Value::from("iss")),
        ],
        "k",
    );
    assert_eq!(todo_auth::token::decode_at(&with_iss, "iss", "k", 1000), Some("u".to_string()));
    let no_exp = raw_token(
        vec![("sub", serde_json::Value::from("u")), ("iss", serde_json::Value::from("iss"))],
        "k",
    );
    assert_eq!(todo_auth::token::claims_of(&no_exp, "iss", "k"), None);
}
