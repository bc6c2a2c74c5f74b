use b2b_product_catalog_quote_system_api::config::{parse_origins, secret_acceptable, secret_is_strong, Config, Environment};

const SECRET: &str = "0123456789abcdef0123456789abcdef";

fn env() -> Environment {
    Environment {
        jwt_secret: Some(SECRET.to_string()),
        database_url: Some("postgres://localhost/pilot".to_string()),
        ..Environment::default()
    }
}

fn error_of(e: Environment) -> String {
    match Config::from_environment(e) {
        Ok(_) => panic!("configuration accepted"),
        Err(m) => m,
    }
}

#[test]
fn defaults() {
    let c = Config::from_environment(env()).ok().unwrap();
    assert_eq!(c.port, 3000);
    assert_eq!(c.aws_region, "us-east-1");
    assert_eq!(c.cors_origin, vec!["http://localhost:4321".to_string()]);
    assert!(!c.legacy_public_api);
    assert_eq!(c.aws_access_key_id, "");
    assert_eq!(c.email_to, "");
    assert_eq!(c.jwt_secret, SECRET);
    assert_eq!(c.database_url, "postgres://localhost/pilot");
}

#[test]
fn explicit_values() {
    let e = Environment {
        port: Some("+8080".to_string()),
        enable_legacy_public_api: Some("true".to_string()),
        aws_region: Some("sa-east-1".to_string()),
        email_from: Some("pilot@example.invalid".to_string()),
        cors_origin: Some(" https://a.example , https://b.example,".to_string()),
        ..env()
    };
    let c = Config::from_environment(e).ok().unwrap();
    assert_eq!(c.port, 8080);
    assert!(c.legacy_public_api);
    assert_eq!(c.aws_region, "sa-east-1");
    assert_eq!(c.email_from, "pilot@example.invalid");
    assert_eq!(
        c.cors_origin,
        vec!["https://a.example".to_string(), "https://b.example".to_string(), String::new()]
    );
    let c = Config::from_environment(Environment {
        enable_legacy_public_api: Some("TRUE".to_string()),
        ..env()
    })
    .ok()
    .unwrap();
    assert!(!c.legacy_public_api);
}

#[test]
fn complaints_in_order() {
    assert_eq!(error_of(Environment::default()), "JWT_SECRET must be set");
    let weak = "JWT_SECRET must be a random secret of at least 32 characters";
    assert_eq!(error_of(Environment { jwt_secret: Some("short".to_string()), ..Environment::default() }), weak);
    assert_eq!(
        error_of(Environment { jwt_secret: Some("your-secret-your-secret-your-secret".to_string()), ..env() }),
        weak
    );
    assert_eq!(
        error_of(Environment { jwt_secret: Some("please-replace-me-with-something-long".to_string()), ..env() }),
        weak
    );
    assert_eq!(error_of(Environment { database_url: None, ..env() }), "DATABASE_URL must be set");
    for port in ["", "+", "-1", "65536", " 80", "8o"] {
        assert_eq!(
            error_of(Environment { port: Some(port.to_string()), ..env() }),
            "PORT must be a valid number"
        );
    }
    let c = Config::from_environment(Environment { port: Some("65535".to_string()), ..env() }).ok().unwrap();
    assert_eq!(c.port, 65535);
}

#[test]
fn secret_rules() {
    assert!(secret_is_strong(SECRET));
    assert!(!secret_is_strong(&SECRET[..31]));
    assert!(!secret_is_strong("0123456789abcdef0123456789Replace"));
    assert!(secret_acceptable(SECRET, "UPPER"));
    assert!(!secret_acceptable(SECRET, "XREPLACEX"));
    // 32 characters, 64 bytes
    assert!(secret_is_strong(&"ñ".repeat(32)));
    assert!(!secret_is_strong(&"ñ".repeat(31)));
}

#[test]
fn origins() {
    assert_eq!(parse_origins(""), vec![String::new()]);
    assert_eq!(parse_origins("a,,b"), vec!["a".to_string(), String::new(), "b".to_string()]);
    assert_eq!(parse_origins("\u{a0}x\u{2003}"), vec!["x".to_string()]);
}
